//! Modes for X11 outputs, as `cvt` computes them and `xrandr` takes them.
use vstd::prelude::*;

use crate::listing;
use crate::number;
use crate::process::CommandOutput;
use crate::text;

verus! {

/// What to do with the answer of `cvt`.
#[derive(Debug, Clone)]
pub enum ModePlan {
    /// Use a mode that the server may know already.
    Plain(String),
    /// Define a new mode: its name and its timings.
    Define(Vec<String>),
    /// The answer holds no mode.
    NoModeline,
}

/// `width` and `height` with an `x` between them.
pub open spec fn size(width: u32, height: u32) -> Seq<char> {
    number::decimal(width as nat) + "x"@ + number::decimal(height as nat)
}

/// The name under which a mode is defined.
pub open spec fn mode_name(width: u32, height: u32) -> Seq<char> {
    "desplio-"@ + number::decimal(width as nat) + "x"@ + number::decimal(height as nat) + "-60"@
}

/// Lines that hold a mode.
pub open spec fn modeline_line() -> spec_fn(Seq<char>) -> bool {
    |line: Seq<char>| text::has_prefix(text::trim_start(line), "Modeline "@)
}

/// The mode that `cvt` printed.
pub open spec fn modeline(printed: Seq<char>) -> Option<Seq<char>> {
    match listing::first_where(text::lines(printed), modeline_line()) {
        Some(line) => Some(text::trim(line)),
        None => None,
    }
}

/// A quoted field is the name that `cvt` gave the mode.
pub open spec fn is_quoted(field: Seq<char>) -> bool {
    text::has_prefix(field, "\""@) && text::has_suffix(field, "\""@)
}

/// The fields of a mode, `name` standing in for the quoted ones.
pub open spec fn renamed(name: Seq<char>) -> spec_fn(Seq<char>) -> Seq<char> {
    |field: Seq<char>|
        if is_quoted(field) {
            name
        } else {
            field
        }
}

/// What `xrandr --newmode` takes: the fields of the mode after its first, under the name `name`.
pub open spec fn mode_parts(line: Seq<char>, name: Seq<char>) -> Seq<Seq<char>> {
    listing::each(listing::tail(text::fields(line)), renamed(name))
}

/// `width` and `height` with an `x` between them.
pub fn size_text(width: u32, height: u32) -> (out: String)
    ensures
        out@ == size(width, height),
{
    let mut out: String = number::decimal_text(width as u64);
    out.append("x");
    out.append(number::decimal_text(height as u64).as_str());
    out
}

/// The name under which a mode is defined.
pub fn mode_name_text(width: u32, height: u32) -> (out: String)
    ensures
        out@ == mode_name(width, height),
{
    let mut out: String = "desplio-".to_owned();
    out.append(number::decimal_text(width as u64).as_str());
    out.append("x");
    out.append(number::decimal_text(height as u64).as_str());
    out.append("-60");
    out
}

/// The arguments that ask `cvt` for a mode at 60 Hz.
pub open spec fn cvt_request(width: u32, height: u32) -> Seq<Seq<char>> {
    seq![number::decimal(width as nat), number::decimal(height as nat), "60"@]
}

/// The arguments that ask `cvt` for a mode at 60 Hz.
pub fn cvt_args(width: u32, height: u32) -> (args: Vec<String>)
    ensures
        text::texts(args@) == cvt_request(width, height),
{
    let mut args: Vec<String> = text::no_texts();
    text::put(&mut args, number::decimal_text(width as u64));
    text::put(&mut args, number::decimal_text(height as u64));
    text::put_str(&mut args, "60");
    args
}

fn find_modeline(printed: &str) -> (out: Option<String>)
    ensures
        text::opt_text(out) == modeline(printed@),
{
    let lines: Vec<String> = text::split_lines(printed);
    let ghost all = text::lines(printed@);
    let mut i: usize = 0;
    while i < lines.len()
        invariant
            text::texts(lines@) == all,
            all == text::lines(printed@),
            i <= lines.len(),
            listing::first_where(all.take(i as int), modeline_line()) is None,
        decreases lines.len() - i,
    {
        let line: &str = lines[i].as_str();
        assert(all[i as int] == line@);
        assert(all.take(i + 1).drop_last() =~= all.take(i as int));
        assert(all.take(i + 1).last() == line@);
        if text::starts_with(text::trimmed_start(line).as_str(), "Modeline ") {
            proof {
                listing::lemma_first_where_take(all, modeline_line(), i + 1);
            }
            return Some(text::trimmed(line));
        }
        i = i + 1;
    }
    assert(all.take(lines@.len() as int) =~= all);
    None
}

fn parts_of(line: &str, name: &str) -> (out: Vec<String>)
    ensures
        text::texts(out@) == mode_parts(line@, name@),
{
    let fields: Vec<String> = text::split_fields(line);
    let ghost all = text::fields(line@);
    let mut out: Vec<String> = text::no_texts();
    let mut i: usize = 0;
    assert(text::texts(out@) =~= listing::each(listing::tail(all.take(0)), renamed(name@)));
    while i < fields.len()
        invariant
            text::texts(fields@) == all,
            i <= fields.len(),
            text::texts(out@) == listing::each(listing::tail(all.take(i as int)), renamed(name@)),
        decreases fields.len() - i,
    {
        let field: &str = fields[i].as_str();
        assert(all[i as int] == field@);
        if i > 0 {
            if text::starts_with(field, "\"") && text::ends_with(field, "\"") {
                text::put_str(&mut out, name);
            } else {
                text::put_str(&mut out, field);
            }
        }
        assert(text::texts(out@) =~= listing::each(
            listing::tail(all.take(i + 1)),
            renamed(name@),
        ));
        i = i + 1;
    }
    assert(all.take(fields@.len() as int) =~= all);
    out
}

/// What to do with the answer of `cvt` for a mode of `width` by `height`.
pub fn plan_mode(cvt: &CommandOutput, width: u32, height: u32) -> (plan: ModePlan)
    ensures
        match plan {
            ModePlan::Plain(mode) => !cvt.success && mode@ == size(width, height),
            ModePlan::Define(parts) => cvt.success && (modeline(cvt.printed()) matches Some(line)
                && text::texts(parts@) == mode_parts(line, mode_name(width, height))),
            ModePlan::NoModeline => cvt.success && modeline(cvt.printed()) is None,
        },
{
    if !cvt.success {
        return ModePlan::Plain(size_text(width, height));
    }
    match find_modeline(cvt.stdout_text().as_str()) {
        Some(line) => ModePlan::Define(
            parts_of(line.as_str(), mode_name_text(width, height).as_str()),
        ),
        None => ModePlan::NoModeline,
    }
}

/// The arguments that define a mode.
pub fn newmode_args(parts: &Vec<String>) -> (args: Vec<String>)
    ensures
        text::texts(args@) == seq!["--newmode"@] + text::texts(parts@),
{
    let mut args: Vec<String> = text::no_texts();
    text::put_str(&mut args, "--newmode");
    text::put_all(&mut args, parts);
    args
}

/// The arguments that let an output use a mode.
pub fn addmode_args(output: &str, mode: &str) -> (args: Vec<String>)
    ensures
        text::texts(args@) == seq!["--addmode"@, output@, mode@],
{
    let mut args: Vec<String> = text::no_texts();
    text::put_str(&mut args, "--addmode");
    text::put_str(&mut args, output);
    text::put_str(&mut args, mode);
    args
}

proof fn lemma_digits_without_x(n: nat)
    ensures
        !number::decimal(n).contains('x'),
        text::is_word(number::decimal(n)),
{
    let digits = number::decimal(n);
    number::decimal_is_digits(n);
    assert forall|i: int| 0 <= i < digits.len() implies !text::is_space(#[trigger] digits[i])
        && digits[i] != 'x' by {
        assert(text::is_digit(digits[i]));
    }
}

/// A size is read back: what stands before its `x` is the width, and what stands after it the
/// height.
pub proof fn sizes_read_back(width: u32, height: u32)
    ensures
        text::split_once(size(width, height), "x"@) matches Some((w, h)) && number::unsigned_value(
            w,
            u32::MAX as int,
        ) == Ok::<int, number::NumberError>(width as int) && number::unsigned_value(
            h,
            u32::MAX as int,
        ) == Ok::<int, number::NumberError>(height as int),
{
    assert("x"@ =~= seq!['x']) by {
        reveal_strlit("x");
    }
    lemma_digits_without_x(width as nat);
    text::divided_at_separator(
        number::decimal(width as nat),
        "x"@,
        number::decimal(height as nat),
    );
    number::decimal_reads_back(width as nat, u32::MAX as int);
    number::decimal_reads_back(height as nat, u32::MAX as int);
}

/// A mode is named after its size: `desplio-`, the size, and the rate of 60. Modes of different
/// sizes have different names.
pub proof fn modes_are_named_after_their_size(
    width: u32,
    height: u32,
    other_width: u32,
    other_height: u32,
)
    ensures
        mode_name(width, height) == "desplio-"@ + size(width, height) + "-60"@,
        size(width, height) == size(other_width, other_height) ==> width == other_width && height
            == other_height,
        mode_name(width, height) == mode_name(other_width, other_height) ==> width == other_width
            && height == other_height,
{
    let one = mode_name(width, height);
    let other = mode_name(other_width, other_height);
    let a = size(width, height);
    let b = size(other_width, other_height);
    assert(one =~= "desplio-"@ + a + "-60"@);
    assert(other =~= "desplio-"@ + b + "-60"@);
    sizes_read_back(width, height);
    sizes_read_back(other_width, other_height);
    if one == other {
        let tail = "-60"@;
        let head = "desplio-"@;
        assert(a.len() == b.len());
        assert(a =~= one.subrange(head.len() as int, head.len() as int + a.len()));
        assert(b =~= other.subrange(head.len() as int, head.len() as int + b.len()));
    }
}

/// `cvt` is asked for the width and the height that are wanted, at 60 Hz.
pub proof fn modes_are_asked_for(width: u32, height: u32)
    ensures
        cvt_request(width, height).len() == 3,
        number::unsigned_value(cvt_request(width, height)[0], u32::MAX as int) == Ok::<
            int,
            number::NumberError,
        >(width as int),
        number::unsigned_value(cvt_request(width, height)[1], u32::MAX as int) == Ok::<
            int,
            number::NumberError,
        >(height as int),
        cvt_request(width, height)[2] == "60"@,
{
    number::decimal_reads_back(width as nat, u32::MAX as int);
    number::decimal_reads_back(height as nat, u32::MAX as int);
}

/// A mode is found wherever `cvt` printed one: in the first line that begins with `Modeline `,
/// after white space or not, up to the white space at its end.
pub proof fn modelines_are_found(
    printed: Seq<char>,
    i: int,
    before: Seq<char>,
    timings: Seq<char>,
    after: Seq<char>,
)
    requires
        0 <= i < text::lines(printed).len(),
        text::is_blank(before),
        text::is_blank(after),
        timings.len() > 0,
        !text::is_space(timings.last()),
        text::lines(printed)[i] == before + ("Modeline "@ + timings) + after,
        forall|j: int|
            0 <= j < i ==> !text::contains(#[trigger] text::lines(printed)[j], "Modeline "@),
    ensures
        modeline(printed) == Some("Modeline "@ + timings),
{
    let lines = text::lines(printed);
    let middle = "Modeline "@ + timings;
    assert("Modeline "@.len() == 9 && !text::is_space("Modeline "@[0])) by {
        reveal_strlit("Modeline ");
    }
    assert(middle[0] == "Modeline "@[0]);
    assert(middle.last() == timings.last());
    text::trimming_leaves_the_middle(before, middle, after);
    assert((middle + after).subrange(0, 9) =~= "Modeline "@);
    assert(modeline_line()(lines[i]));
    assert forall|j: int| 0 <= j < i implies !modeline_line()(#[trigger] lines[j]) by {
        if modeline_line()(lines[j]) {
            lemma_trimmed_start_is_found(lines[j], "Modeline "@);
        }
    }
    listing::first_is_found(lines, modeline_line(), i);
}

proof fn lemma_trimmed_start_is_found(s: Seq<char>, pattern: Seq<char>)
    requires
        text::has_prefix(text::trim_start(s), pattern),
    ensures
        text::contains(s, pattern),
    decreases s.len(),
{
    if s.len() > 0 && text::is_space(s[0]) {
        let t = s.skip(1);
        lemma_trimmed_start_is_found(t, pattern);
        let at = choose|at: int| text::occurs_at(t, pattern, at);
        assert(s.subrange(at + 1, at + 1 + pattern.len()) =~= t.subrange(at, at + pattern.len()));
        assert(text::occurs_at(s, pattern, at + 1));
    } else {
        assert(text::occurs_at(s, pattern, 0));
    }
}

/// A mode that `cvt` printed is defined under its new name with the timings as they stand: the
/// quoted name is replaced, and the fields after it are kept.
pub proof fn modes_are_renamed(given: Seq<char>, timings: Seq<char>, name: Seq<char>)
    requires
        text::is_word(given),
        forall|i: int|
            0 <= i < text::fields(timings).len() ==> !text::has_prefix(
                #[trigger] text::fields(timings)[i],
                "\""@,
            ),
    ensures
        mode_parts("Modeline"@ + " "@ + (("\""@ + given + "\""@) + " "@ + timings), name) == seq![
            name,
        ] + text::fields(timings),
{
    let quoted = "\""@ + given + "\""@;
    assert("\""@ =~= seq!['"']) by {
        reveal_strlit("\"");
    }
    assert(text::is_word("Modeline"@)) by {
        reveal_strlit("Modeline");
    }
    assert forall|i: int| 0 <= i < quoted.len() implies !text::is_space(#[trigger] quoted[i]) by {
        if 0 < i < quoted.len() - 1 {
            assert(quoted[i] == given[i - 1]);
        }
    }
    assert(quoted.subrange(0, 1) =~= "\""@);
    assert(quoted.subrange(quoted.len() - 1, quoted.len() as int) =~= "\""@);
    assert(is_quoted(quoted));
    text::words_are_fields("Modeline"@, quoted + " "@ + timings);
    text::words_are_fields(quoted, timings);
    let rest = text::fields(timings);
    listing::items_keep_their_places("Modeline"@, seq![quoted] + rest, renamed(name));
    listing::items_keep_their_places(quoted, rest, renamed(name));
    assert(listing::each(rest, renamed(name)) =~= rest);
}

/// Where no line holds `Modeline `, there is no mode.
pub proof fn answers_without_modeline_hold_no_mode(printed: Seq<char>)
    requires
        forall|i: int|
            0 <= i < text::lines(printed).len() ==> !text::contains(
                #[trigger] text::lines(printed)[i],
                "Modeline "@,
            ),
    ensures
        modeline(printed) is None,
{
    let lines = text::lines(printed);
    listing::lemma_first_where(lines, modeline_line());
    if let Some(line) = listing::first_where(lines, modeline_line()) {
        let i = choose|i: int|
            0 <= i < lines.len() && #[trigger] lines[i] == line && modeline_line()(line);
        lemma_trimmed_start_is_found(lines[i], "Modeline "@);
    }
}

} // verus!
