//! How the host makes itself known in the local network.
use vstd::prelude::*;

use crate::text;

verus! {

/// What the host is announced as.
pub const SERVICE_TYPE: &'static str = "_desplio._tcp.local.";

/// A service as the `mdns-sd` crate announces it.
#[verifier::external_type_specification]
#[verifier::external_body]
pub struct ExServiceInfo(mdns_sd::ServiceInfo);

/// What `ServiceInfo::get_type` tells: what the service is announced as.
pub uninterp spec fn service_type(service: mdns_sd::ServiceInfo) -> Seq<char>;

/// What `ServiceInfo::get_fullname` tells: the instance's name within its type.
pub uninterp spec fn service_fullname(service: mdns_sd::ServiceInfo) -> Seq<char>;

/// What `ServiceInfo::get_hostname` tells: the name of the host that the service runs on.
pub uninterp spec fn service_hostname(service: mdns_sd::ServiceInfo) -> Seq<char>;

/// What `ServiceInfo::get_port` tells: the port that the service listens at.
pub uninterp spec fn service_port(service: mdns_sd::ServiceInfo) -> u16;

/// How many addresses `ServiceInfo::get_addresses` tells.
pub uninterp spec fn service_addresses(service: mdns_sd::ServiceInfo) -> nat;

/// What `ServiceInfo::get_property_val_str` tells of a key: the property that is announced under
/// it.
pub uninterp spec fn service_property(service: mdns_sd::ServiceInfo, key: Seq<char>) -> Option<
    Seq<char>,
>;

/// A service that is ready to be announced, and its full name, by which it is withdrawn.
pub struct Announcement {
    pub service: mdns_sd::ServiceInfo,
    pub fullname: String,
}

/// An instance name with a backslash before each dot and each backslash.
pub open spec fn escaped(name: Seq<char>) -> Seq<char>
    decreases name.len(),
{
    if name.len() == 0 {
        Seq::empty()
    } else if name.last() == '.' || name.last() == '\\' {
        escaped(name.drop_last()).push('\\').push(name.last())
    } else {
        escaped(name.drop_last()).push(name.last())
    }
}

/// A host name in which `local.` does not stand twice at the end.
pub open spec fn normalized(host: Seq<char>) -> Seq<char> {
    if text::has_suffix(host, ".local.local."@) {
        host.take(host.len() - 6)
    } else {
        host
    }
}

/// All characters are ASCII.
pub open spec fn is_ascii(s: Seq<char>) -> bool {
    forall|i: int| 0 <= i < s.len() ==> #[trigger] s[i] <= '\u{7f}'
}

/// Calls `ServiceInfo::new` without addresses and with one property. A type without subtype is kept
/// as it is; the full name is the escaped instance name, a dot and the type; the host name is kept
/// but for a doubled `local.` at its end; the port is kept. A property whose key is ASCII without
/// `=`, and which is not longer than 255 bytes, is taken and keeps its value. It is found under its
/// key in whatever case, and nothing is found under another ASCII key.
#[verifier::external_body]
fn new_service(
    ty: &str,
    name: &str,
    host: &str,
    addresses: &str,
    port: u16,
    key: &str,
    value: &str,
) -> (out: mdns_sd::ServiceInfo)
    requires
        !text::contains(ty@, "._sub."@),
        addresses@.len() == 0,
        is_ascii(key@),
        is_ascii(value@),
        !key@.contains('='),
        key@.len() + 1 + value@.len() <= 255,
    ensures
        service_type(out) == ty@,
        service_fullname(out) == escaped(name@) + "."@ + ty@,
        service_hostname(out) == normalized(host@),
        service_addresses(out) == 0,
        service_port(out) == port,
        forall|k: Seq<char>|
            is_ascii(k) ==> #[trigger] service_property(out, k)
                == if text::same_ignoring_ascii_case(k, key@) {
                Some(value@)
            } else {
                None
            },
{
    let properties = [(key, value)];
    mdns_sd::ServiceInfo::new(ty, name, host, addresses, port, &properties[..]).expect(
        "valid service info",
    )
}

/// Calls `ServiceInfo::get_fullname`.
#[verifier::external_body]
fn fullname_of(service: &mdns_sd::ServiceInfo) -> (out: String)
    ensures
        out@ == service_fullname(*service),
{
    service.get_fullname().to_string()
}

/// The service is that of a host: its instance is called after `hostname`, its host name is `small`
/// within `local.`, it listens at `port`, and it tells its version and nothing else.
pub open spec fn announces(
    service: mdns_sd::ServiceInfo,
    hostname: Seq<char>,
    small: Seq<char>,
    port: u16,
) -> bool {
    &&& service_type(service) == SERVICE_TYPE@
    &&& service_fullname(service) == escaped(hostname + " Desplio Host"@) + "."@ + SERVICE_TYPE@
    &&& service_hostname(service) == normalized(small + ".local."@)
    &&& service_addresses(service) == 0
    &&& service_port(service) == port
    &&& service_property(service, "version"@) == Some("0.1.0"@)
    &&& forall|k: Seq<char>|
        is_ascii(k) && !text::same_ignoring_ascii_case(k, "version"@)
            ==> #[trigger] service_property(service, k) is None
}

/// The text that `str::to_lowercase` makes of `s`.
pub uninterp spec fn lowercase(s: Seq<char>) -> Seq<char>;

/// Calls `str::to_lowercase`. The text depends on `s` alone; ASCII texts have their capital
/// letters made small, and nothing else changed.
#[verifier::external_body]
fn to_lower(s: &str) -> (out: String)
    ensures
        out@ == lowercase(s@),
        is_ascii(s@) ==> out@ == s@.map_values(|c: char| text::ascii_lower(c)),
{
    s.to_lowercase()
}

/// The announcement of a host of that name: its instance is called after it, and its address is
/// its name in small letters within `local.`.
pub fn announcement(hostname: &str, port: u16) -> (out: Announcement)
    ensures
        announces(out.service, hostname@, lowercase(hostname@), port),
        is_ascii(hostname@) ==> announces(
            out.service,
            hostname@,
            hostname@.map_values(|c: char| text::ascii_lower(c)),
            port,
        ),
        out.fullname@ == service_fullname(out.service),
{
    let small: String = to_lower(hostname);
    announcement_of(hostname, small.as_str(), port)
}

/// The announcement of a host of that name, which is `small` in small letters.
pub fn announcement_of(hostname: &str, small: &str, port: u16) -> (out: Announcement)
    ensures
        announces(out.service, hostname@, small@, port),
        out.fullname@ == service_fullname(out.service),
{
    let mut instance: String = hostname.to_owned();
    instance.append(" Desplio Host");
    let mut host: String = small.to_owned();
    host.append(".local.");
    proof {
        reveal_strlit("_desplio._tcp.local.");
        reveal_strlit("._sub.");
        reveal_strlit("");
        reveal_strlit("version");
        reveal_strlit("0.1.0");
        let ty = SERVICE_TYPE@;
        let sub = "._sub."@;
        assert forall|at: int| !text::occurs_at(ty, sub, at) by {
            if text::occurs_at(ty, sub, at) {
                let found = ty.subrange(at, at + 6);
                assert(found[0] == '.' && found[1] == '_' && found[2] == 's');
                assert(ty[at] == '.' && ty[at + 1] == '_' && ty[at + 2] == 's');
            }
        }
        assert(!"version"@.contains('='));
    }
    let service: mdns_sd::ServiceInfo = new_service(
        SERVICE_TYPE,
        instance.as_str(),
        host.as_str(),
        "",
        port,
        "version",
        "0.1.0",
    );
    let fullname: String = fullname_of(&service);
    Announcement { service, fullname }
}

/// An escaped name is escaped character by character: a dot and a backslash get a backslash before
/// them, and every other character stays as it is.
pub proof fn names_are_escaped_by_character(a: Seq<char>, b: Seq<char>, c: char)
    ensures
        escaped(a + b) == escaped(a) + escaped(b),
        c == '.' || c == '\\' ==> escaped(seq![c]) == seq!['\\', c],
        c != '.' && c != '\\' ==> escaped(seq![c]) == seq![c],
    decreases b.len(),
{
    reveal_with_fuel(escaped, 2);
    if b.len() == 0 {
        assert(a + b =~= a);
        assert(escaped(a) + escaped(b) =~= escaped(a));
    } else {
        assert((a + b).drop_last() =~= a + b.drop_last());
        names_are_escaped_by_character(a, b.drop_last(), c);
        assert(escaped(a + b) =~= escaped(a) + escaped(b));
    }
    assert(seq![c].drop_last() =~= Seq::<char>::empty());
    assert(escaped(seq![c].drop_last()) =~= Seq::<char>::empty());
    if c == '.' || c == '\\' {
        assert(escaped(seq![c]) =~= seq!['\\', c]);
    } else {
        assert(escaped(seq![c]) =~= seq![c]);
    }
}

/// A name without dots and backslashes is announced as it is.
pub proof fn plain_names_are_not_escaped(name: Seq<char>)
    requires
        !name.contains('.'),
        !name.contains('\\'),
    ensures
        escaped(name) == name,
    decreases name.len(),
{
    if name.len() > 0 {
        let init = name.drop_last();
        assert(name.contains(name[name.len() - 1]));
        assert forall|c: char| init.contains(c) implies name.contains(c) by {
            let i = choose|i: int| 0 <= i < init.len() && init[i] == c;
            assert(name[i] == c);
        }
        plain_names_are_not_escaped(init);
        assert(name =~= init.push(name.last()));
    }
}

proof fn lemma_local()
    ensures
        ".local"@.len() == 6,
        ".local."@.len() == 7,
        ".local.local."@.len() == 13,
        ".local.local."@ == ".local"@ + ".local."@,
{
    reveal_strlit(".local");
    reveal_strlit(".local.");
    reveal_strlit(".local.local.");
    assert(".local.local."@ =~= ".local"@ + ".local."@);
}

proof fn lemma_local_is_whole()
    ensures
        ".local.local."@.take(7) == ".local."@,
{
    reveal_strlit(".local.");
    reveal_strlit(".local.local.");
    assert(".local.local."@.take(7) =~= ".local."@);
}

/// A host's name is announced within `local.` once: a name that is already in it does not get it
/// twice, and any other keeps what was put behind it.
pub proof fn hosts_are_in_local_once(small: Seq<char>, other: Seq<char>)
    requires
        !text::has_suffix(other, ".local"@),
    ensures
        normalized((small + ".local"@) + ".local."@) == small + ".local."@,
        normalized(other + ".local."@) == other + ".local."@,
{
    lemma_local();
    lemma_local_is_whole();
    lemma_doubled(small, ".local"@, ".local."@, ".local.local."@);
    lemma_not_doubled(other, ".local"@, ".local."@, ".local.local."@);
}

proof fn lemma_doubled(small: Seq<char>, a: Seq<char>, b: Seq<char>, ab: Seq<char>)
    requires
        a.len() == 6,
        b.len() == 7,
        ab == a + b,
        ab.take(7) == b,
    ensures
        text::has_suffix((small + a) + b, ab),
        ((small + a) + b).take(((small + a) + b).len() - 6) == small + b,
{
    let twice = (small + a) + b;
    assert(twice =~= small + ab);
    text::parts_are_found(small, ab);
    assert(twice.take(twice.len() - 6) =~= small + ab.take(7));
}

proof fn lemma_not_doubled(other: Seq<char>, a: Seq<char>, b: Seq<char>, ab: Seq<char>)
    requires
        a.len() == 6,
        b.len() == 7,
        ab == a + b,
        !text::has_suffix(other, a),
    ensures
        !text::has_suffix(other + b, ab),
{
    let once = other + b;
    if text::has_suffix(once, ab) {
        let end = once.subrange(once.len() - 13, once.len() as int);
        assert(end == ab);
        assert(other.subrange(other.len() - 6, other.len() as int) =~= end.subrange(0, 6));
        assert(ab.subrange(0, 6) =~= a);
    }
}

/// A host whose name holds no dots and backslashes is announced by its name: the service's full
/// name begins with it, its host name is the name in small letters within `local.`, the port is the
/// one that it listens at, and the version is told.
pub proof fn hosts_are_announced_by_name(
    service: mdns_sd::ServiceInfo,
    hostname: Seq<char>,
    small: Seq<char>,
    port: u16,
    key: Seq<char>,
)
    requires
        announces(service, hostname, small, port),
        !hostname.contains('.'),
        !hostname.contains('\\'),
        !text::has_suffix(small, ".local"@),
        is_ascii(key),
    ensures
        service_type(service) == "_desplio._tcp.local."@,
        service_fullname(service) == hostname + " Desplio Host"@ + "."@ + "_desplio._tcp.local."@,
        service_hostname(service) == small + ".local."@,
        service_port(service) == port,
        service_addresses(service) == 0,
        service_property(service, "version"@) == Some("0.1.0"@),
        service_property(service, key) is Some ==> text::same_ignoring_ascii_case(
            key,
            "version"@,
        ),
{
    let label = " Desplio Host"@;
    let name = hostname + label;
    assert(!label.contains('.') && !label.contains('\\')) by {
        reveal_strlit(" Desplio Host");
    }
    assert forall|i: int| 0 <= i < name.len() implies name[i] != '.' && name[i] != '\\' by {
        if i < hostname.len() {
            assert(hostname.contains(hostname[i]));
        } else {
            assert(label.contains(label[i - hostname.len()]));
        }
    }
    plain_names_are_not_escaped(name);
    hosts_are_in_local_once(small, small);
}

/// A text is ASCII exactly where each of its characters is.
pub proof fn ascii_texts_have_small_codes(s: Seq<char>, c: char)
    ensures
        is_ascii(s.push(c)) <==> is_ascii(s) && (c as int) < 128,
        is_ascii(Seq::empty()),
{
    if is_ascii(s.push(c)) {
        assert(s.push(c)[s.len() as int] == c);
        assert forall|i: int| 0 <= i < s.len() implies #[trigger] s[i] <= '\u{7f}' by {
            assert(s.push(c)[i] == s[i]);
        }
    }
}

} // verus!
