//! The evdi backend: a virtual monitor behind a DRM device node.
use vstd::prelude::*;

use crate::capture;
use crate::capture::CaptureRun;
use crate::capture::FrameVerdict;
use crate::config::CaptureConfig;
use crate::display::x11_layout::X11RestorePlan;
use crate::display::DisplayConfig;
use crate::number;
use crate::path;
use crate::sorting;
use crate::text;

verus! {

/// Why the evdi backend cannot show or capture its monitor.
#[derive(Debug)]
pub enum EvdiError {
    InvalidConfig(String),
    NoDrmDevices,
    OpenFailed,
    ZeroInitialDeviceCount,
    IncompatibleLib {
        library_major: i32,
        library_minor: i32,
        expected_major: u32,
        expected_minor: u32,
    },
    ModeWaitTimedOut,
    PollFailed(String),
    InvalidEventFd,
    InvalidCardName(String),
    InvalidNegotiatedMode(String),
    UnsupportedMode { width: u32, height: u32, refresh_hz: u32 },
    FrameCaptureAllBlack,
    FrameCaptureTimedOut,
    FrameWriteFailed(String),
    UnsupportedPixelFormat(u32),
}

impl EvdiError {
    /// The error in words.
    pub open spec fn text(self) -> Seq<char> {
        match self {
            EvdiError::InvalidConfig(why) => "invalid display configuration: "@ + why@,
            EvdiError::NoDrmDevices => "no DRM card nodes found under /dev/dri"@,
            EvdiError::OpenFailed =>
                "failed to open an evdi device; module not loaded, no node available, or access denied"@,
            EvdiError::ZeroInitialDeviceCount =>
                "evdi module is loaded with initial_device_count=0; reload it with initial_device_count=1 so /dev/dri/card0 can be created"@,
            EvdiError::IncompatibleLib {
                library_major,
                library_minor,
                expected_major,
                expected_minor,
            } => "evdi userspace library "@ + number::signed_decimal(library_major as int) + "."@
                + number::signed_decimal(library_minor as int)
                + " is incompatible with expected module ABI "@ + number::decimal(
                expected_major as nat,
            ) + "."@ + number::decimal(expected_minor as nat) + "+"@,
            EvdiError::ModeWaitTimedOut =>
                "timed out waiting for compositor mode negotiation"@,
            EvdiError::PollFailed(why) => "poll on evdi event fd failed: "@ + why@,
            EvdiError::InvalidEventFd => "event fd was invalid"@,
            EvdiError::InvalidCardName(name) => "failed to derive card number from "@ + name@,
            EvdiError::InvalidNegotiatedMode(why) =>
                "mode negotiated by compositor was invalid: "@ + why@,
            EvdiError::UnsupportedMode { width, height, refresh_hz } =>
                "M0 currently supports only 1280x800@60 for the validated EDID path; requested "@
                + number::decimal(width as nat) + "x"@ + number::decimal(height as nat) + "@"@
                + number::decimal(refresh_hz as nat),
            EvdiError::FrameCaptureAllBlack =>
                "evdi monitor appeared, but the compositor only produced black frames during initial verification"@,
            EvdiError::FrameCaptureTimedOut => "timed out waiting for evdi frame updates"@,
            EvdiError::FrameWriteFailed(why) => "failed to write frame image: "@ + why@,
            EvdiError::UnsupportedPixelFormat(format) =>
                "unsupported pixel format for PNG export: "@ + number::decimal(format as nat),
        }
    }

    /// The error in words.
    pub fn message(&self) -> (out: String)
        ensures
            out@ == self.text(),
    {
        match self {
            EvdiError::InvalidConfig(why) => "invalid display configuration: ".to_owned().concat(
                why.as_str(),
            ),
            EvdiError::NoDrmDevices => "no DRM card nodes found under /dev/dri".to_owned(),
            EvdiError::OpenFailed =>
                "failed to open an evdi device; module not loaded, no node available, or access denied".to_owned(),
            EvdiError::ZeroInitialDeviceCount =>
                "evdi module is loaded with initial_device_count=0; reload it with initial_device_count=1 so /dev/dri/card0 can be created".to_owned(),
            EvdiError::IncompatibleLib {
                library_major,
                library_minor,
                expected_major,
                expected_minor,
            } => {
                let mut out: String = "evdi userspace library ".to_owned();
                out.append(number::signed_text(*library_major).as_str());
                out.append(".");
                out.append(number::signed_text(*library_minor).as_str());
                out.append(" is incompatible with expected module ABI ");
                out.append(number::decimal_text(*expected_major as u64).as_str());
                out.append(".");
                out.append(number::decimal_text(*expected_minor as u64).as_str());
                out.append("+");
                out
            },
            EvdiError::ModeWaitTimedOut =>
                "timed out waiting for compositor mode negotiation".to_owned(),
            EvdiError::PollFailed(why) => "poll on evdi event fd failed: ".to_owned().concat(
                why.as_str(),
            ),
            EvdiError::InvalidEventFd => "event fd was invalid".to_owned(),
            EvdiError::InvalidCardName(name) =>
                "failed to derive card number from ".to_owned().concat(name.as_str()),
            EvdiError::InvalidNegotiatedMode(why) =>
                "mode negotiated by compositor was invalid: ".to_owned().concat(why.as_str()),
            EvdiError::UnsupportedMode { width, height, refresh_hz } => {
                let mut out: String =
                    "M0 currently supports only 1280x800@60 for the validated EDID path; requested ".to_owned();
                out.append(number::decimal_text(*width as u64).as_str());
                out.append("x");
                out.append(number::decimal_text(*height as u64).as_str());
                out.append("@");
                out.append(number::decimal_text(*refresh_hz as u64).as_str());
                out
            },
            EvdiError::FrameCaptureAllBlack =>
                "evdi monitor appeared, but the compositor only produced black frames during initial verification".to_owned(),
            EvdiError::FrameCaptureTimedOut =>
                "timed out waiting for evdi frame updates".to_owned(),
            EvdiError::FrameWriteFailed(why) => "failed to write frame image: ".to_owned().concat(
                why.as_str(),
            ),
            EvdiError::UnsupportedPixelFormat(format) =>
                "unsupported pixel format for PNG export: ".to_owned().concat(
                number::decimal_text(*format as u64).as_str(),
            ),
        }
    }
}

/// Refuses a display without size or refresh rate.
pub fn validate_config(config: DisplayConfig) -> (out: Result<(), EvdiError>)
    ensures
        match out {
            Ok(()) => config.width > 0 && config.height > 0 && config.refresh_hz > 0,
            Err(EvdiError::InvalidConfig(why)) => {
                ||| (config.width == 0 || config.height == 0) && why@
                    == "width and height must be greater than zero"@
                ||| config.width > 0 && config.height > 0 && config.refresh_hz == 0 && why@
                    == "refresh_hz must be greater than zero"@
            },
            Err(_) => false,
        },
{
    if config.width == 0 || config.height == 0 {
        return Err(
            EvdiError::InvalidConfig("width and height must be greater than zero".to_owned()),
        );
    }
    if config.refresh_hz == 0 {
        return Err(EvdiError::InvalidConfig("refresh_hz must be greater than zero".to_owned()));
    }
    Ok(())
}

/// The pixels of a display that an EDID exists for; any other is refused.
pub fn require_edid_mode(config: DisplayConfig) -> (out: Result<u32, EvdiError>)
    ensures
        match out {
            Ok(area) => config == (DisplayConfig { width: 1280, height: 800, refresh_hz: 60 })
                && area == config.width * config.height,
            Err(EvdiError::UnsupportedMode { width, height, refresh_hz }) => config == (
            DisplayConfig { width, height, refresh_hz }) && config != (DisplayConfig {
                width: 1280,
                height: 800,
                refresh_hz: 60,
            }),
            Err(_) => false,
        },
{
    if config.width == 1280 && config.height == 800 && config.refresh_hz == 60 {
        Ok(config.width * config.height)
    } else {
        Err(
            EvdiError::UnsupportedMode {
                width: config.width,
                height: config.height,
                refresh_hz: config.refresh_hz,
            },
        )
    }
}

/// Row `y` of the frame lies within it.
pub open spec fn row_fits(frame: Seq<u8>, width: nat, stride: nat, y: nat) -> bool {
    y * stride + width * 4 <= frame.len()
}

/// Every pixel of row `y` is black.
pub open spec fn row_black(frame: Seq<u8>, width: nat, stride: nat, y: nat) -> bool {
    forall|x: nat| x < width ==> capture::black_at(frame, #[trigger] capture::pixel_at(stride, x, y))
}

/// Going through the rows from the top, a row outside the frame comes only after one that is not
/// black.
pub open spec fn rows_in_reach(frame: Seq<u8>, width: nat, height: nat, stride: nat) -> bool {
    forall|y: nat|
        y < height ==> (#[trigger] row_fits(frame, width, stride, y) || exists|z: nat|
            z < y && row_fits(frame, width, stride, z) && !#[trigger] row_black(
                frame,
                width,
                stride,
                z,
            ))
}

/// Whether the frame shows nothing but black.
pub fn framebuffer_is_all_black(
    framebuffer: &[u8],
    width: usize,
    height: usize,
    stride: usize,
) -> (yes: bool)
    requires
        rows_in_reach(framebuffer@, width as nat, height as nat, stride as nat),
    ensures
        yes == capture::all_black(framebuffer@, width as nat, height as nat, stride as nat),
{
    let len: usize = framebuffer.len();
    let mut y: usize = 0;
    while y < height
        invariant
            y <= height,
            len == framebuffer@.len(),
            rows_in_reach(framebuffer@, width as nat, height as nat, stride as nat),
            forall|z: nat|
                z < y ==> #[trigger] row_black(framebuffer@, width as nat, stride as nat, z),
        decreases height - y,
    {
        assert(row_fits(framebuffer@, width as nat, stride as nat, y as nat));
        let mut x: usize = 0;
        while x < width
            invariant
                x <= width,
                y < height,
                len == framebuffer@.len(),
                row_fits(framebuffer@, width as nat, stride as nat, y as nat),
                forall|i: nat|
                    i < x ==> capture::black_at(
                        framebuffer@,
                        #[trigger] capture::pixel_at(stride as nat, i, y as nat),
                    ),
            decreases width - x,
        {
            assert(0 <= y * stride) by (nonlinear_arith);
            let at: usize = y * stride + x * 4;
            assert(at == capture::pixel_at(stride as nat, x as nat, y as nat));
            if framebuffer[at] != 0 || framebuffer[at + 1] != 0 || framebuffer[at + 2] != 0 {
                return false;
            }
            x = x + 1;
        }
        y = y + 1;
    }
    assert forall|x: nat, z: nat| x < width && z < height implies capture::black_at(
        framebuffer@,
        #[trigger] capture::pixel_at(stride as nat, x, z),
    ) by {
        assert(row_black(framebuffer@, width as nat, stride as nat, z));
    }
    true
}

/// The names that `/dev/dri` lists; `None` stands for an entry that could not be read.
pub open spec fn entry_names(entries: Seq<Option<String>>) -> Seq<Option<Seq<char>>> {
    Seq::new(entries.len(), |i: int| text::opt_text(entries[i]))
}

/// Entries that name a DRM card.
pub open spec fn is_card(entry: Option<Seq<char>>) -> bool {
    match entry {
        Some(name) => text::has_prefix(name, "card"@),
        None => false,
    }
}

/// One of the entries names a DRM card.
pub open spec fn lists_card(entries: Seq<Option<Seq<char>>>) -> bool {
    exists|i: int| 0 <= i < entries.len() && is_card(#[trigger] entries[i])
}

/// Accepts a host with a DRM card; `None` stands for a directory that could not be read.
pub fn ensure_drm_devices_exist(entries: Option<&Vec<Option<String>>>) -> (out: Result<
    (),
    EvdiError,
>)
    ensures
        match out {
            Ok(()) => entries matches Some(list) && lists_card(entry_names(list@)),
            Err(EvdiError::NoDrmDevices) => entries matches Some(list) ==> !lists_card(
                entry_names(list@),
            ),
            Err(_) => false,
        },
{
    match entries {
        Some(list) => {
            let mut i: usize = 0;
            while i < list.len()
                invariant
                    entries == Some(list),
                    i <= list.len(),
                    forall|j: int| 0 <= j < i ==> !is_card(#[trigger] entry_names(list@)[j]),
                decreases list.len() - i,
            {
                assert(entry_names(list@)[i as int] == text::opt_text(list@[i as int]));
                if let Some(name) = &list[i] {
                    if text::starts_with(name.as_str(), "card") {
                        assert(is_card(entry_names(list@)[i as int]));
                        return Ok(());
                    }
                }
                i = i + 1;
            }
            Err(EvdiError::NoDrmDevices)
        },
        None => Err(EvdiError::NoDrmDevices),
    }
}

/// What the listed entries say of card numbers.
pub enum CardList {
    /// The numbers, in the order of the entries.
    Numbers(Seq<i32>),
    /// An entry could not be read.
    Unreadable,
    /// A card's name does not end with a number.
    BadName(Seq<char>),
}

/// The card numbers of the listed entries; the first entry that cannot be used decides.
pub open spec fn card_list(entries: Seq<Option<Seq<char>>>) -> CardList
    decreases entries.len(),
{
    if entries.len() == 0 {
        CardList::Numbers(Seq::empty())
    } else {
        match card_list(entries.drop_last()) {
            CardList::Numbers(numbers) => match entries.last() {
                None => CardList::Unreadable,
                Some(name) => if text::has_prefix(name, "card"@) {
                    match number::signed_value(name.skip("card"@.len() as int)) {
                        Ok(v) => CardList::Numbers(numbers.push(v as i32)),
                        Err(_) => CardList::BadName(name),
                    }
                } else {
                    CardList::Numbers(numbers)
                },
            },
            other => other,
        }
    }
}

proof fn lemma_card_list_stops(entries: Seq<Option<Seq<char>>>, n: int)
    requires
        0 <= n <= entries.len(),
        !(card_list(entries.take(n)) is Numbers),
    ensures
        card_list(entries) == card_list(entries.take(n)),
    decreases entries.len(),
{
    if n == entries.len() {
        assert(entries.take(n) =~= entries);
    } else {
        assert(entries.drop_last().take(n) =~= entries.take(n));
        lemma_card_list_stops(entries.drop_last(), n);
    }
}

/// The numbers of the DRM cards, ascending; `None` stands for a directory that could not be read.
pub fn available_card_numbers(entries: Option<&Vec<Option<String>>>) -> (out: Result<
    Vec<i32>,
    EvdiError,
>)
    ensures
        match out {
            Ok(cards) => entries matches Some(list) && (card_list(entry_names(list@)) matches
                CardList::Numbers(numbers) && sorting::ascending(cards@) && cards@.to_multiset()
                == numbers.to_multiset()),
            Err(EvdiError::NoDrmDevices) => entries matches Some(list) ==> card_list(
                entry_names(list@),
            ) is Unreadable,
            Err(EvdiError::InvalidCardName(bad)) => entries matches Some(list) && card_list(
                entry_names(list@),
            ) == CardList::BadName(bad@),
            Err(_) => false,
        },
{
    let list: &Vec<Option<String>> = match entries {
        Some(list) => list,
        None => {
            return Err(EvdiError::NoDrmDevices);
        },
    };
    let ghost all = entry_names(list@);
    let mut numbers: Vec<i32> = Vec::new();
    let mut i: usize = 0;
    while i < list.len()
        invariant
            entries == Some(list),
            all == entry_names(list@),
            i <= list.len(),
            card_list(all.take(i as int)) == CardList::Numbers(numbers@),
        decreases list.len() - i,
    {
        assert(all[i as int] == text::opt_text(list@[i as int]));
        assert(all.take(i + 1).drop_last() =~= all.take(i as int));
        assert(all.take(i + 1).last() == all[i as int]);
        match &list[i] {
            None => {
                proof {
                    lemma_card_list_stops(all, i + 1);
                }
                return Err(EvdiError::NoDrmDevices);
            },
            Some(name) => {
                if text::starts_with(name.as_str(), "card") {
                    let n: usize = name.as_str().unicode_len();
                    let k: usize = "card".unicode_len();
                    let suffix: String = text::part(name.as_str(), k, n);
                    assert(name@.skip(k as int) =~= name@.subrange(k as int, n as int));
                    match number::parse_i32(suffix.as_str()) {
                        Ok(v) => {
                            numbers.push(v);
                        },
                        Err(_) => {
                            proof {
                                lemma_card_list_stops(all, i + 1);
                            }
                            return Err(EvdiError::InvalidCardName(name.clone()));
                        },
                    }
                }
            },
        }
        i = i + 1;
    }
    assert(all.take(list@.len() as int) =~= all);
    Ok(sorting::sort_numbers(&numbers))
}

/// The module's parameter says that it makes no device.
pub open spec fn makes_no_device(parameter: Option<&str>) -> bool {
    parameter matches Some(value) && text::trim(value@) == "0"@
}

/// Whether the kernel module was loaded so that it makes no device; `None` stands for a parameter
/// that could not be read.
pub fn evdi_initial_device_count_is_zero(parameter: Option<&str>) -> (yes: bool)
    ensures
        yes == makes_no_device(parameter),
{
    match parameter {
        Some(value) => text::same(text::trimmed(value).as_str(), "0"),
        None => false,
    }
}

/// `expected` as the library counts versions.
pub open spec fn version_number(expected: u32) -> int {
    if expected <= i32::MAX {
        expected as int
    } else {
        expected - 0x1_0000_0000
    }
}

fn as_version(expected: u32) -> (out: i32)
    ensures
        out == version_number(expected),
{
    if expected <= i32::MAX as u32 {
        expected as i32
    } else {
        (expected as i64 - 0x1_0000_0000) as i32
    }
}

/// Accepts a userspace library of the expected major version and at least the expected minor one.
pub fn check_library_version(
    library_major: i32,
    library_minor: i32,
    expected_major: u32,
    expected_minor: u32,
) -> (out: Result<(), EvdiError>)
    ensures
        match out {
            Ok(()) => library_major == version_number(expected_major) && library_minor
                >= version_number(expected_minor),
            Err(err) => err == (EvdiError::IncompatibleLib {
                library_major,
                library_minor,
                expected_major,
                expected_minor,
            }) && !(library_major == version_number(expected_major) && library_minor
                >= version_number(expected_minor)),
        },
{
    if library_major != as_version(expected_major) || library_minor < as_version(expected_minor) {
        Err(
            EvdiError::IncompatibleLib {
                library_major,
                library_minor,
                expected_major,
                expected_minor,
            },
        )
    } else {
        Ok(())
    }
}

/// What a DRM card is to evdi.
#[derive(Debug, Clone, Copy, PartialEq, Eq, Structural)]
pub enum CardStatus {
    NotPresent,
    Unrecognized,
    Available,
    Other,
}

/// The search for an evdi device: what to do next.
#[derive(Debug)]
pub enum HandleStep {
    /// Open any device that is attached.
    OpenAttached,
    /// Ask for a new device.
    AddDevice,
    /// Open the device that was added.
    OpenAdded(i32),
    /// List the DRM cards.
    ListCards,
    /// Ask what the card at `index` is.
    Check { cards: Vec<i32>, index: usize },
    /// Open the card at `index`.
    Open { cards: Vec<i32>, index: usize },
    /// A device is open.
    Opened,
    /// No device can be opened.
    Failed(EvdiError),
}

/// Goes on with the card at `index`, or gives up after the last.
pub open spec fn probes(step: HandleStep, cards: Seq<i32>, index: int) -> bool {
    if index < cards.len() {
        step matches HandleStep::Check { cards: c, index: i } && c@ == cards && i == index
    } else {
        step matches HandleStep::Failed(EvdiError::OpenFailed)
    }
}

/// What comes after the card at `index` was looked at: only an available one is opened.
pub open spec fn follows_check(
    next: HandleStep,
    cards: Seq<i32>,
    index: int,
    status: CardStatus,
) -> bool {
    if status == CardStatus::Available {
        next matches HandleStep::Open { cards: c, index: i } && c@ == cards && i == index
    } else {
        probes(next, cards, index + 1)
    }
}

/// What comes after the attempt to open the card at `index`.
pub open spec fn follows_open(
    next: HandleStep,
    cards: Seq<i32>,
    index: int,
    opened: bool,
) -> bool {
    if opened {
        next == HandleStep::Opened
    } else {
        probes(next, cards, index + 1)
    }
}

impl HandleStep {
    /// Begins the search, unless the module was loaded so that it makes no device.
    pub fn begin(initial_count_is_zero: bool) -> (next: HandleStep)
        ensures
            initial_count_is_zero ==> next == HandleStep::Failed(
                EvdiError::ZeroInitialDeviceCount,
            ),
            !initial_count_is_zero ==> next == HandleStep::OpenAttached,
    {
        if initial_count_is_zero {
            HandleStep::Failed(EvdiError::ZeroInitialDeviceCount)
        } else {
            HandleStep::OpenAttached
        }
    }

    /// After the attempt to open an attached device.
    pub fn after_attached(opened: bool) -> (next: HandleStep)
        ensures
            next == if opened {
                HandleStep::Opened
            } else {
                HandleStep::AddDevice
            },
    {
        if opened {
            HandleStep::Opened
        } else {
            HandleStep::AddDevice
        }
    }

    /// After the request for a new device, which names its card or a negative number.
    pub fn after_added(card: i32) -> (next: HandleStep)
        ensures
            next == if card >= 0 {
                HandleStep::OpenAdded(card)
            } else {
                HandleStep::ListCards
            },
    {
        if card >= 0 {
            HandleStep::OpenAdded(card)
        } else {
            HandleStep::ListCards
        }
    }

    /// After the attempt to open the device that was added.
    pub fn after_open_added(opened: bool) -> (next: HandleStep)
        ensures
            next == if opened {
                HandleStep::Opened
            } else {
                HandleStep::ListCards
            },
    {
        if opened {
            HandleStep::Opened
        } else {
            HandleStep::ListCards
        }
    }

    fn probe(cards: Vec<i32>, index: usize) -> (next: HandleStep)
        requires
            index <= cards.len(),
        ensures
            probes(next, cards@, index as int),
    {
        if index < cards.len() {
            HandleStep::Check { cards, index }
        } else {
            HandleStep::Failed(EvdiError::OpenFailed)
        }
    }

    /// After the cards were listed.
    pub fn after_listed(listed: Result<Vec<i32>, EvdiError>) -> (next: HandleStep)
        ensures
            match listed {
                Ok(cards) => probes(next, cards@, 0),
                Err(err) => next == HandleStep::Failed(err),
            },
    {
        match listed {
            Ok(cards) => HandleStep::probe(cards, 0),
            Err(err) => HandleStep::Failed(err),
        }
    }

    /// After the card at `index` was looked at: only an available one is opened.
    pub fn after_checked(cards: Vec<i32>, index: usize, status: CardStatus) -> (next: HandleStep)
        requires
            index < cards.len(),
        ensures
            follows_check(next, cards@, index as int, status),
    {
        match status {
            CardStatus::Available => HandleStep::Open { cards, index },
            _ => HandleStep::probe(cards, index + 1),
        }
    }

    /// After the attempt to open the card at `index`.
    pub fn after_opened(cards: Vec<i32>, index: usize, opened: bool) -> (next: HandleStep)
        requires
            index < cards.len(),
        ensures
            follows_open(next, cards@, index as int, opened),
    {
        if opened {
            HandleStep::Opened
        } else {
            HandleStep::probe(cards, index + 1)
        }
    }
}

/// One step of the probing, `status` and `opens` telling what each card answers.
pub open spec fn probe_follows(
    step: HandleStep,
    next: HandleStep,
    status: spec_fn(i32) -> CardStatus,
    opens: spec_fn(i32) -> bool,
) -> bool {
    match step {
        HandleStep::Check { cards, index } => follows_check(
            next,
            cards@,
            index as int,
            status(cards@[index as int]),
        ),
        HandleStep::Open { cards, index } => follows_open(
            next,
            cards@,
            index as int,
            opens(cards@[index as int]),
        ),
        _ => false,
    }
}

/// Step `i` of a probing is followed by the next.
pub open spec fn probe_follows_at(
    steps: Seq<HandleStep>,
    i: int,
    status: spec_fn(i32) -> CardStatus,
    opens: spec_fn(i32) -> bool,
) -> bool {
    probe_follows(steps[i], steps[i + 1], status, opens)
}

spec fn probing(
    step: HandleStep,
    cards: Seq<i32>,
    status: spec_fn(i32) -> CardStatus,
    opens: spec_fn(i32) -> bool,
) -> bool {
    match step {
        HandleStep::Check { cards: c, index } => c@ == cards && index < cards.len() && forall|j: int|
            0 <= j < index ==> !(status(#[trigger] cards[j]) == CardStatus::Available && opens(
                cards[j],
            )),
        HandleStep::Open { cards: c, index } => c@ == cards && index < cards.len() && status(
            cards[index as int],
        ) == CardStatus::Available && forall|j: int|
            0 <= j < index ==> !(status(#[trigger] cards[j]) == CardStatus::Available && opens(
                cards[j],
            )),
        HandleStep::Failed(_) => forall|j: int|
            0 <= j < cards.len() ==> !(status(#[trigger] cards[j]) == CardStatus::Available
                && opens(cards[j])),
        HandleStep::Opened => exists|i: int|
            0 <= i < cards.len() && status(#[trigger] cards[i]) == CardStatus::Available && opens(
                cards[i],
            ),
        _ => false,
    }
}

proof fn lemma_probing(
    cards: Seq<i32>,
    steps: Seq<HandleStep>,
    status: spec_fn(i32) -> CardStatus,
    opens: spec_fn(i32) -> bool,
    k: int,
)
    requires
        0 <= k < steps.len(),
        probes(steps[0], cards, 0),
        forall|i: int|
            0 <= i < steps.len() - 1 ==> #[trigger] probe_follows_at(steps, i, status, opens),
    ensures
        probing(steps[k], cards, status, opens),
    decreases k,
{
    if k > 0 {
        lemma_probing(cards, steps, status, opens, k - 1);
        assert(probe_follows_at(steps, k - 1, status, opens));
    }
}

/// Going through the cards, a device is opened only at an available card that opens, at the first
/// such card in the list, and the search fails only where there is none.
pub proof fn probing_opens_the_first_usable_card(
    cards: Seq<i32>,
    steps: Seq<HandleStep>,
    status: spec_fn(i32) -> CardStatus,
    opens: spec_fn(i32) -> bool,
)
    requires
        steps.len() > 0,
        probes(steps[0], cards, 0),
        forall|i: int|
            0 <= i < steps.len() - 1 ==> #[trigger] probe_follows_at(steps, i, status, opens),
    ensures
        steps.last() is Failed ==> forall|j: int|
            0 <= j < cards.len() ==> !(status(#[trigger] cards[j]) == CardStatus::Available
                && opens(cards[j])),
        steps.last() is Opened ==> steps.len() > 1 && (steps[steps.len() - 2] matches
            HandleStep::Open { cards: c, index } && c@ == cards && index < cards.len() && status(
            cards[index as int],
        ) == CardStatus::Available && opens(cards[index as int]) && forall|j: int|
            0 <= j < index ==> !(status(#[trigger] cards[j]) == CardStatus::Available && opens(
                cards[j],
            ))),
{
    lemma_probing(cards, steps, status, opens, steps.len() - 1);
    if steps.last() is Opened && steps.len() > 1 {
        let k = steps.len() - 2;
        lemma_probing(cards, steps, status, opens, k);
        assert(probe_follows_at(steps, k, status, opens));
    }
}

/// A mode that the compositor set.
#[derive(Debug, Clone, Copy)]
pub struct NegotiatedMode {
    pub width: i32,
    pub height: i32,
    pub refresh_rate: i32,
    pub bits_per_pixel: i32,
    pub pixel_format: u32,
}

/// What the device has reported so far.
#[derive(Debug, Clone, Copy)]
pub struct EventState {
    pub latest_mode: Option<NegotiatedMode>,
    pub last_dpms: Option<i32>,
}

impl Default for EventState {
    fn default() -> (state: Self)
        ensures
            state == (EventState { latest_mode: None, last_dpms: None }),
    {
        EventState { latest_mode: None, last_dpms: None }
    }
}

impl EventState {
    /// Takes note of a power state.
    pub fn dpms(&mut self, mode: i32)
        ensures
            *final(self) == (EventState { last_dpms: Some(mode), ..*old(self) }),
    {
        self.last_dpms = Some(mode);
    }

    /// Takes note of a mode.
    pub fn mode_changed(&mut self, mode: NegotiatedMode)
        ensures
            *final(self) == (EventState { latest_mode: Some(mode), ..*old(self) }),
    {
        self.latest_mode = Some(mode);
    }
}

/// How long to wait for a mode, in nanoseconds.
pub const MODE_WAIT_NANOS: u128 = 30_000_000_000;

/// Whether to look for a mode once more, `waited_nanos` after the device was connected.
pub fn keeps_waiting_for_mode(waited_nanos: u128) -> (yes: bool)
    ensures
        yes == (waited_nanos < 30 * 1_000_000_000),
{
    waited_nanos < MODE_WAIT_NANOS
}

/// The mode that ended the wait, or the error of a wait that is over without one.
pub fn negotiated_mode(state: &EventState) -> (out: Result<NegotiatedMode, EvdiError>)
    ensures
        match state.latest_mode {
            Some(mode) => out == Ok::<NegotiatedMode, EvdiError>(mode),
            None => out == Err::<NegotiatedMode, EvdiError>(EvdiError::ModeWaitTimedOut),
        },
{
    match state.latest_mode {
        Some(mode) => Ok(mode),
        None => Err(EvdiError::ModeWaitTimedOut),
    }
}

/// Accepts a descriptor that events can be waited for on.
pub fn event_descriptor(fd: i32) -> (out: Result<i32, EvdiError>)
    ensures
        out == if fd < 0 {
            Err::<i32, EvdiError>(EvdiError::InvalidEventFd)
        } else {
            Ok::<i32, EvdiError>(fd)
        },
{
    if fd < 0 {
        Err(EvdiError::InvalidEventFd)
    } else {
        Ok(fd)
    }
}

/// A wait of `millis` milliseconds as `poll` takes it.
pub fn poll_timeout(millis: u128) -> (out: i32)
    ensures
        out == if millis > i32::MAX {
            i32::MAX as int
        } else {
            millis as int
        },
{
    if millis > i32::MAX as u128 {
        i32::MAX
    } else {
        millis as i32
    }
}

/// What `poll` found: whether there is something to read, by the bits `readable`.
pub fn poll_outcome(count: i32, events: i16, readable: i16, failure: String) -> (out: Result<
    bool,
    EvdiError,
>)
    ensures
        count < 0 ==> out == Err::<bool, EvdiError>(EvdiError::PollFailed(failure)),
        count >= 0 ==> out == Ok::<bool, EvdiError>(count > 0 && (events & readable) != 0),
{
    if count < 0 {
        return Err(EvdiError::PollFailed(failure));
    }
    Ok(count > 0 && (events & readable) != 0)
}

/// `width` times four, at most the largest 32-bit number.
pub open spec fn row_bytes(width: i32) -> int {
    if width * 4 > i32::MAX {
        i32::MAX as int
    } else {
        width * 4
    }
}

/// The bytes that a row of the mode takes: four for each pixel.
pub fn compute_stride(mode: NegotiatedMode) -> (out: Result<i32, EvdiError>)
    ensures
        match out {
            Ok(stride) => mode.width > 0 && mode.height > 0 && mode.bits_per_pixel >= 24 && stride
                == row_bytes(mode.width),
            Err(EvdiError::InvalidNegotiatedMode(why)) => {
                ||| (mode.width <= 0 || mode.height <= 0) && why@
                    == "width and height must be positive"@
                ||| mode.width > 0 && mode.height > 0 && mode.bits_per_pixel < 24 && why@
                    == "unsupported bits_per_pixel "@ + number::signed_decimal(
                    mode.bits_per_pixel as int,
                )
            },
            Err(_) => false,
        },
{
    if mode.width <= 0 || mode.height <= 0 {
        return Err(
            EvdiError::InvalidNegotiatedMode("width and height must be positive".to_owned()),
        );
    }
    if mode.bits_per_pixel < 24 {
        let mut why: String = "unsupported bits_per_pixel ".to_owned();
        why.append(number::signed_text(mode.bits_per_pixel).as_str());
        return Err(EvdiError::InvalidNegotiatedMode(why));
    }
    let bytes: i64 = mode.width as i64 * 4;
    if bytes > i32::MAX as i64 {
        Ok(i32::MAX)
    } else {
        Ok(bytes as i32)
    }
}

/// The bytes that a frame of `height` rows takes, where a `usize` can count them.
pub fn framebuffer_len(stride: i32, height: i32) -> (out: Option<usize>)
    requires
        0 <= stride,
        0 <= height,
    ensures
        match out {
            Some(len) => len == stride * height,
            None => stride * height > usize::MAX,
        },
{
    assert(0 <= stride * height <= 0x7fff_ffff * 0x7fff_ffff) by (nonlinear_arith)
        requires
            0 <= stride <= 0x7fff_ffff,
            0 <= height <= 0x7fff_ffff,
    ;
    let len: u64 = stride as u64 * height as u64;
    if len > usize::MAX as u64 {
        None
    } else {
        Some(len as usize)
    }
}

/// The pixel format of frames that can be exported: XRGB8888.
pub const XRGB8888: u32 = 875_713_112;

/// A captured frame that is to be written to a file.
#[derive(Debug)]
pub struct FramePicture {
    pub path: String,
    pub rgba: Vec<u8>,
    /// Whether it shows nothing but black.
    pub black: bool,
}

/// A virtual monitor behind an evdi device: what the compositor set, and how to put the desktop
/// back.
#[derive(Debug)]
pub struct EvdiBackend {
    pub event_fd: i32,
    pub width: i32,
    pub height: i32,
    pub stride: i32,
    pub pixel_format: u32,
    pub connected: bool,
    pub buffer_registered: bool,
    pub x11_restore_plan: Option<X11RestorePlan>,
}

impl EvdiBackend {
    /// The backend shows a mode that frames can be made of.
    pub open spec fn valid(self) -> bool {
        &&& self.event_fd >= 0
        &&& self.width > 0
        &&& self.height > 0
        &&& self.stride == row_bytes(self.width)
    }

    /// A connected device whose monitor shows `mode`; its buffer is yet to be registered.
    pub fn start(event_fd: i32, mode: NegotiatedMode) -> (out: Result<EvdiBackend, EvdiError>)
        ensures
            match out {
                Ok(backend) => event_fd >= 0 && mode.width > 0 && mode.height > 0
                    && mode.bits_per_pixel >= 24 && backend.valid() && backend == (EvdiBackend {
                    event_fd,
                    width: mode.width,
                    height: mode.height,
                    stride: backend.stride,
                    pixel_format: mode.pixel_format,
                    connected: true,
                    buffer_registered: false,
                    x11_restore_plan: None,
                }),
                Err(EvdiError::InvalidEventFd) => event_fd < 0,
                Err(EvdiError::InvalidNegotiatedMode(why)) => event_fd >= 0 && {
                    ||| (mode.width <= 0 || mode.height <= 0) && why@
                        == "width and height must be positive"@
                    ||| mode.width > 0 && mode.height > 0 && mode.bits_per_pixel < 24 && why@
                        == "unsupported bits_per_pixel "@ + number::signed_decimal(
                        mode.bits_per_pixel as int,
                    )
                },
                Err(_) => false,
            },
    {
        let event_fd: i32 = match event_descriptor(event_fd) {
            Ok(fd) => fd,
            Err(err) => {
                return Err(err);
            },
        };
        match compute_stride(mode) {
            Ok(stride) => Ok(
                EvdiBackend {
                    event_fd,
                    width: mode.width,
                    height: mode.height,
                    stride,
                    pixel_format: mode.pixel_format,
                    connected: true,
                    buffer_registered: false,
                    x11_restore_plan: None,
                },
            ),
            Err(err) => Err(err),
        }
    }

    /// The backend once its buffer is registered, with the plan to restore the desktop.
    pub fn started(self, x11_restore_plan: Option<X11RestorePlan>) -> (out: EvdiBackend)
        ensures
            out == (EvdiBackend { buffer_registered: true, x11_restore_plan, ..self }),
    {
        EvdiBackend {
            event_fd: self.event_fd,
            width: self.width,
            height: self.height,
            stride: self.stride,
            pixel_format: self.pixel_format,
            connected: self.connected,
            buffer_registered: true,
            x11_restore_plan,
        }
    }

    /// The capture to begin with, unless no frame is wanted; frames of another pixel format cannot
    /// be exported.
    pub fn capture_frames_to_png(&self, capture: &CaptureConfig) -> (out: Result<
        Option<CaptureRun>,
        EvdiError,
    >)
        ensures
            match out {
                Ok(None) => capture.frames == 0,
                Ok(Some(run)) => capture.frames > 0 && self.pixel_format == XRGB8888 && run == (
                CaptureRun {
                    wanted: capture.frames,
                    taken: 0,
                    saw_picture: false,
                    gives_up_on_black: true,
                }),
                Err(err) => capture.frames > 0 && self.pixel_format != XRGB8888 && err
                    == EvdiError::UnsupportedPixelFormat(self.pixel_format),
            },
    {
        if capture.frames == 0 {
            return Ok(None);
        }
        if self.pixel_format != XRGB8888 {
            return Err(EvdiError::UnsupportedPixelFormat(self.pixel_format));
        }
        Ok(Some(CaptureRun::new(capture.frames, true)))
    }

    /// The picture of frame `index`: where it is written and what it shows; nothing where the
    /// frame is not whole.
    pub fn picture(&self, output_dir: &str, index: usize, framebuffer: &[u8]) -> (out: Option<
        FramePicture,
    >)
        requires
            self.valid(),
            self.width * self.height * 4 <= isize::MAX,
        ensures
            match out {
                Some(picture) => capture::is_whole(
                    framebuffer@.len(),
                    self.width as nat,
                    self.height as nat,
                    self.stride as nat,
                ) && picture.path@ == path::join(output_dir@, capture::frame_name(index as nat))
                    && capture::shows(
                    picture.rgba@,
                    framebuffer@,
                    self.width as nat,
                    self.height as nat,
                    self.stride as nat,
                ) && picture.black == capture::all_black(
                    framebuffer@,
                    self.width as nat,
                    self.height as nat,
                    self.stride as nat,
                ),
                None => !capture::is_whole(
                    framebuffer@.len(),
                    self.width as nat,
                    self.height as nat,
                    self.stride as nat,
                ),
            },
    {
        let width: usize = self.width as usize;
        let height: usize = self.height as usize;
        let stride: usize = self.stride as usize;
        if !capture::frame_is_whole(framebuffer.len(), width, height, stride) {
            return None;
        }
        proof {
            capture::whole_frames_can_be_read(
                framebuffer@,
                width as nat,
                height as nat,
                stride as nat,
            );
            assert forall|y: nat| y < height implies #[trigger] row_fits(
                framebuffer@,
                width as nat,
                stride as nat,
                y,
            ) by {
                assert((y * stride as nat) + width * 4 <= framebuffer@.len());
            }
        }
        let (path, rgba) = capture::write_xrgb8888_png(
            output_dir,
            index,
            width,
            height,
            stride,
            framebuffer,
        );
        let black: bool = framebuffer_is_all_black(framebuffer, width, height, stride);
        Some(FramePicture { path, rgba, black })
    }
}

/// The start of the backend: what to do next.
#[derive(Debug)]
pub enum StartStep {
    /// List `/dev/dri`.
    ListDevices,
    /// Ask the userspace library for its version.
    AskVersion,
    /// Go on with the search for a device.
    Search(HandleStep),
    /// Hand the device an EDID for a display of so many pixels.
    Connect { area: u32 },
    /// Register a buffer of so many bytes.
    Register { backend: EvdiBackend, len: usize },
    /// The monitor is there, but for the desktop's layout.
    Attached(EvdiBackend),
    /// There is no monitor.
    Failed(EvdiError),
}

impl StartStep {
    /// Begins, where the display has a size and a refresh rate.
    pub fn begin(config: DisplayConfig) -> (step: StartStep)
        ensures
            match step {
                StartStep::ListDevices => config.width > 0 && config.height > 0
                    && config.refresh_hz > 0,
                StartStep::Failed(EvdiError::InvalidConfig(why)) => {
                    ||| (config.width == 0 || config.height == 0) && why@
                        == "width and height must be greater than zero"@
                    ||| config.width > 0 && config.height > 0 && config.refresh_hz == 0 && why@
                        == "refresh_hz must be greater than zero"@
                },
                _ => false,
            },
    {
        match validate_config(config) {
            Ok(()) => StartStep::ListDevices,
            Err(err) => StartStep::Failed(err),
        }
    }

    /// After the devices were listed; `None` stands for a directory that could not be read.
    pub fn after_devices(entries: Option<&Vec<Option<String>>>) -> (step: StartStep)
        ensures
            match step {
                StartStep::AskVersion => entries matches Some(list) && lists_card(
                    entry_names(list@),
                ),
                StartStep::Failed(EvdiError::NoDrmDevices) => entries matches Some(list)
                    ==> !lists_card(entry_names(list@)),
                _ => false,
            },
    {
        match ensure_drm_devices_exist(entries) {
            Ok(()) => StartStep::AskVersion,
            Err(err) => StartStep::Failed(err),
        }
    }

    /// After the library told its version: the search begins, unless the module was loaded so
    /// that it makes no device.
    pub fn after_version(
        library_major: i32,
        library_minor: i32,
        expected_major: u32,
        expected_minor: u32,
        initial_device_count: Option<&str>,
    ) -> (step: StartStep)
        ensures
            match step {
                StartStep::Search(HandleStep::OpenAttached) => library_major == version_number(
                    expected_major,
                ) && library_minor >= version_number(expected_minor) && !makes_no_device(
                    initial_device_count,
                ),
                StartStep::Search(HandleStep::Failed(EvdiError::ZeroInitialDeviceCount)) =>
                    library_major == version_number(expected_major) && library_minor
                        >= version_number(expected_minor) && makes_no_device(initial_device_count),
                StartStep::Failed(err) => err == (EvdiError::IncompatibleLib {
                    library_major,
                    library_minor,
                    expected_major,
                    expected_minor,
                }) && !(library_major == version_number(expected_major) && library_minor
                    >= version_number(expected_minor)),
                _ => false,
            },
    {
        match check_library_version(library_major, library_minor, expected_major, expected_minor) {
            Ok(()) => StartStep::Search(
                HandleStep::begin(evdi_initial_device_count_is_zero(initial_device_count)),
            ),
            Err(err) => StartStep::Failed(err),
        }
    }

    /// After a step of the search: where a device is open it is handed an EDID, for the one display
    /// that there is an EDID for.
    pub fn after_search(config: DisplayConfig, search: HandleStep) -> (step: StartStep)
        ensures
            match search {
                HandleStep::Opened => match step {
                    StartStep::Connect { area } => config == (DisplayConfig {
                        width: 1280,
                        height: 800,
                        refresh_hz: 60,
                    }) && area == 1280 * 800,
                    StartStep::Failed(err) => config != (DisplayConfig {
                        width: 1280,
                        height: 800,
                        refresh_hz: 60,
                    }) && err == (EvdiError::UnsupportedMode {
                        width: config.width,
                        height: config.height,
                        refresh_hz: config.refresh_hz,
                    }),
                    _ => false,
                },
                HandleStep::Failed(err) => step == StartStep::Failed(err),
                _ => step == StartStep::Search(search),
            },
    {
        match search {
            HandleStep::Opened => match require_edid_mode(config) {
                Ok(area) => StartStep::Connect { area },
                Err(err) => StartStep::Failed(err),
            },
            HandleStep::Failed(err) => StartStep::Failed(err),
            other => StartStep::Search(other),
        }
    }

    /// After the compositor set a mode, or did not: a buffer for it is registered. `None` stands
    /// for a buffer that memory cannot address.
    pub fn after_mode(mode: Result<NegotiatedMode, EvdiError>, event_fd: i32) -> (out: Option<
        StartStep,
    >)
        ensures
            match mode {
                Ok(set) => match out {
                    Some(StartStep::Register { backend, len }) => backend.valid()
                        && backend.event_fd == event_fd && backend.width == set.width
                        && backend.height == set.height && backend.pixel_format == set.pixel_format
                        && set.bits_per_pixel >= 24 && backend.connected
                        && !backend.buffer_registered && backend.x11_restore_plan is None && len
                        == backend.stride * backend.height,
                    Some(StartStep::Failed(EvdiError::InvalidEventFd)) => event_fd < 0,
                    Some(StartStep::Failed(EvdiError::InvalidNegotiatedMode(why))) => event_fd >= 0
                        && {
                        ||| (set.width <= 0 || set.height <= 0) && why@
                            == "width and height must be positive"@
                        ||| set.width > 0 && set.height > 0 && set.bits_per_pixel < 24 && why@
                            == "unsupported bits_per_pixel "@ + number::signed_decimal(
                            set.bits_per_pixel as int,
                        )
                    },
                    Some(_) => false,
                    None => event_fd >= 0 && set.width > 0 && set.height > 0
                        && set.bits_per_pixel >= 24 && row_bytes(set.width) * set.height
                        > usize::MAX,
                },
                Err(err) => out == Some(StartStep::Failed(err)),
            },
    {
        let set: NegotiatedMode = match mode {
            Ok(set) => set,
            Err(err) => {
                return Some(StartStep::Failed(err));
            },
        };
        match EvdiBackend::start(event_fd, set) {
            Ok(backend) => match framebuffer_len(backend.stride, backend.height) {
                Some(len) => Some(StartStep::Register { backend, len }),
                None => None,
            },
            Err(err) => Some(StartStep::Failed(err)),
        }
    }

    /// After the buffer was registered.
    pub fn after_register(backend: EvdiBackend, plan: Option<X11RestorePlan>) -> (step: StartStep)
        ensures
            step == StartStep::Attached(
                EvdiBackend { buffer_registered: true, x11_restore_plan: plan, ..backend },
            ),
    {
        StartStep::Attached(backend.started(plan))
    }
}

/// The frames of a valid backend are whole in a buffer made for its mode, unless a row takes more
/// bytes than 31 bits can count.
pub proof fn backend_frames_are_whole(backend: EvdiBackend)
    requires
        backend.valid(),
        backend.width * 4 <= i32::MAX,
    ensures
        capture::is_whole(
            (backend.stride * backend.height) as nat,
            backend.width as nat,
            backend.height as nat,
            backend.stride as nat,
        ),
{
    assert((backend.height - 1) * backend.stride + backend.stride == backend.stride
        * backend.height) by (nonlinear_arith);
    assert(0 <= backend.stride * backend.height) by (nonlinear_arith)
        requires
            0 <= backend.stride,
            0 <= backend.height,
    ;
}

/// Takes note of a captured frame: `Ok(true)` goes on after a pause, `Ok(false)` has enough.
pub fn frame_taken(run: &mut CaptureRun, black: bool) -> (out: Result<bool, EvdiError>)
    requires
        old(run).taken < old(run).wanted,
    ensures
        *final(run) == old(run).after(black),
        out == match old(run).verdict(black) {
            FrameVerdict::Continue => Ok::<bool, EvdiError>(true),
            FrameVerdict::Enough => Ok::<bool, EvdiError>(false),
            FrameVerdict::AllBlack => Err::<bool, EvdiError>(EvdiError::FrameCaptureAllBlack),
        },
{
    match run.record(black) {
        FrameVerdict::Continue => Ok(true),
        FrameVerdict::Enough => Ok(false),
        FrameVerdict::AllBlack => Err(EvdiError::FrameCaptureAllBlack),
    }
}

/// What came of a capture that is over.
pub fn end_capture(run: &CaptureRun) -> (out: Result<(), EvdiError>)
    ensures
        out == if run.succeeded() {
            Ok::<(), EvdiError>(())
        } else {
            Err::<(), EvdiError>(EvdiError::FrameCaptureTimedOut)
        },
{
    if run.is_success() {
        Ok(())
    } else {
        Err(EvdiError::FrameCaptureTimedOut)
    }
}

/// Connectors of the card that evdi takes first.
pub fn is_first_card_connector(name: &str) -> (yes: bool)
    ensures
        yes == text::has_prefix(name@, "card0-"@),
{
    text::starts_with(name, "card0-")
}

/// An error in words ends with the reason, the name or the format that it carries.
pub proof fn errors_tell_their_reason(err: EvdiError)
    ensures
        match err {
            EvdiError::InvalidConfig(why)
            | EvdiError::PollFailed(why)
            | EvdiError::InvalidCardName(why)
            | EvdiError::InvalidNegotiatedMode(why)
            | EvdiError::FrameWriteFailed(why) => text::has_suffix(err.text(), why@),
            EvdiError::UnsupportedPixelFormat(format) => text::has_suffix(
                err.text(),
                number::decimal(format as nat),
            ),
            EvdiError::UnsupportedMode { width, height, refresh_hz } => text::has_suffix(
                err.text(),
                number::decimal(width as nat) + "x"@ + number::decimal(height as nat) + "@"@
                    + number::decimal(refresh_hz as nat),
            ),
            EvdiError::IncompatibleLib {
                library_major,
                library_minor,
                expected_major,
                expected_minor,
            } => text::contains(
                err.text(),
                number::signed_decimal(library_major as int) + "."@ + number::signed_decimal(
                    library_minor as int,
                ),
            ) && text::has_suffix(
                err.text(),
                number::decimal(expected_major as nat) + "."@ + number::decimal(
                    expected_minor as nat,
                ) + "+"@,
            ),
            _ => true,
        },
{
    match err {
        EvdiError::InvalidConfig(why) => text::parts_are_found(
            "invalid display configuration: "@,
            why@,
        ),
        EvdiError::PollFailed(why) => text::parts_are_found(
            "poll on evdi event fd failed: "@,
            why@,
        ),
        EvdiError::InvalidCardName(why) => text::parts_are_found(
            "failed to derive card number from "@,
            why@,
        ),
        EvdiError::InvalidNegotiatedMode(why) => text::parts_are_found(
            "mode negotiated by compositor was invalid: "@,
            why@,
        ),
        EvdiError::FrameWriteFailed(why) => text::parts_are_found(
            "failed to write frame image: "@,
            why@,
        ),
        EvdiError::UnsupportedPixelFormat(format) => text::parts_are_found(
            "unsupported pixel format for PNG export: "@,
            number::decimal(format as nat),
        ),
        EvdiError::UnsupportedMode { width, height, refresh_hz } => {
            let head =
                "M0 currently supports only 1280x800@60 for the validated EDID path; requested "@;
            let a = number::decimal(width as nat);
            let b = number::decimal(height as nat);
            let c = number::decimal(refresh_hz as nat);
            lemma_behind(head, a, "x"@, b, "@"@, c);
        },
        EvdiError::IncompatibleLib {
            library_major,
            library_minor,
            expected_major,
            expected_minor,
        } => {
            let head = "evdi userspace library "@;
            let a = number::signed_decimal(library_major as int);
            let b = number::signed_decimal(library_minor as int);
            let middle = " is incompatible with expected module ABI "@;
            let c = number::decimal(expected_major as nat);
            let d = number::decimal(expected_minor as nat);
            lemma_versions(head, a, "."@, b, middle, c, d, "+"@);
        },
        _ => {},
    }
}

proof fn lemma_behind(
    head: Seq<char>,
    a: Seq<char>,
    b: Seq<char>,
    c: Seq<char>,
    d: Seq<char>,
    e: Seq<char>,
)
    ensures
        text::has_suffix(head + a + b + c + d + e, a + b + c + d + e),
{
    assert(head + a + b + c + d + e =~= head + (a + b + c + d + e));
    text::parts_are_found(head, a + b + c + d + e);
}

proof fn lemma_versions(
    head: Seq<char>,
    a: Seq<char>,
    dot: Seq<char>,
    b: Seq<char>,
    middle: Seq<char>,
    c: Seq<char>,
    d: Seq<char>,
    end: Seq<char>,
)
    ensures
        text::contains(head + a + dot + b + middle + c + dot + d + end, a + dot + b),
        text::has_suffix(head + a + dot + b + middle + c + dot + d + end, c + dot + d + end),
{
    let all = head + a + dot + b + middle + c + dot + d + end;
    assert(all =~= head + (a + dot + b) + (middle + c + dot + d + end));
    text::middle_is_found(head, a + dot + b, middle + c + dot + d + end);
    assert(all =~= (head + a + dot + b + middle) + (c + dot + d + end));
    text::parts_are_found(head + a + dot + b + middle, c + dot + d + end);
}

/// A whole frame can be looked through, and a frame of which a row is missing can be where a row
/// above it shows a colour.
pub proof fn whole_frames_are_in_reach(
    frame: Seq<u8>,
    width: nat,
    height: nat,
    stride: nat,
    x: nat,
    y: nat,
)
    ensures
        capture::is_whole(frame.len(), width, height, stride) ==> rows_in_reach(
            frame,
            width,
            height,
            stride,
        ),
        x < width && y < height && y * stride + width * 4 <= frame.len() && capture::has_colour(
            frame,
            stride,
            x,
            y,
        ) && (forall|z: nat| z <= y ==> #[trigger] row_fits(frame, width, stride, z))
            ==> rows_in_reach(frame, width, height, stride),
{
    if capture::is_whole(frame.len(), width, height, stride) {
        assert forall|z: nat| z < height implies #[trigger] row_fits(frame, width, stride, z) by {
            assert(z * stride <= (height - 1) * stride) by (nonlinear_arith)
                requires
                    z <= height - 1,
                    0 <= stride,
            ;
        }
    }
    if x < width && y < height && y * stride + width * 4 <= frame.len() && capture::has_colour(
        frame,
        stride,
        x,
        y,
    ) && (forall|z: nat| z <= y ==> #[trigger] row_fits(frame, width, stride, z)) {
        assert(row_fits(frame, width, stride, y));
        assert(!row_black(frame, width, stride, y)) by {
            assert(!capture::black_at(frame, capture::pixel_at(stride, x, y)));
        }
        assert forall|z: nat|
            z < height implies (#[trigger] row_fits(frame, width, stride, z) || exists|w: nat|
            w < z && row_fits(frame, width, stride, w) && !#[trigger] row_black(
                frame,
                width,
                stride,
                w,
            )) by {
            if z > y {
                assert(!row_black(frame, width, stride, y));
            }
        }
    }
}

/// A row fits where its last pixel ends within the frame, and is black where no pixel of it has a
/// colour.
pub proof fn rows_are_looked_through(frame: Seq<u8>, width: nat, stride: nat, y: nat)
    ensures
        row_fits(frame, width, stride, y) <==> y * stride + 4 * width <= frame.len(),
        row_black(frame, width, stride, y) <==> (forall|x: nat|
            x < width ==> !#[trigger] capture::has_colour(frame, stride, x, y)),
{
    if row_black(frame, width, stride, y) {
        assert forall|x: nat| x < width implies !#[trigger] capture::has_colour(
            frame,
            stride,
            x,
            y,
        ) by {
            assert(capture::black_at(frame, capture::pixel_at(stride, x, y)));
        }
    }
    if forall|x: nat| x < width ==> !#[trigger] capture::has_colour(frame, stride, x, y) {
        assert forall|x: nat| x < width implies capture::black_at(
            frame,
            #[trigger] capture::pixel_at(stride, x, y),
        ) by {
            assert(!capture::has_colour(frame, stride, x, y));
        }
    }
}

/// A host has a DRM card exactly where an entry is called `card` and anything, wherever among the
/// entries it stands; an entry that could not be read is none.
pub proof fn cards_are_found(entries: Seq<Option<Seq<char>>>, suffix: Seq<char>)
    ensures
        entries.contains(Some("card"@ + suffix)) ==> lists_card(entries),
        lists_card(entries) ==> exists|i: int|
            0 <= i < entries.len() && (#[trigger] entries[i] matches Some(name)
                && text::has_prefix(name, "card"@)),
{
    text::parts_are_found("card"@, suffix);
    if entries.contains(Some("card"@ + suffix)) {
        let i = choose|i: int| 0 <= i < entries.len() && entries[i] == Some("card"@ + suffix);
        assert(is_card(entries[i]));
    }
    if lists_card(entries) {
        let i = choose|i: int| 0 <= i < entries.len() && is_card(#[trigger] entries[i]);
        assert(entries[i] matches Some(name) && text::has_prefix(name, "card"@));
    }
}

/// The numbers of the cards are read one entry after the other: `card` and a number adds the
/// number, `card` and anything else is told as a bad name, an entry with another name adds nothing,
/// and one that could not be read ends the list.
pub proof fn cards_are_numbered(
    entries: Seq<Option<Seq<char>>>,
    numbers: Seq<i32>,
    n: i32,
    bad: Seq<char>,
    other: Seq<char>,
)
    requires
        card_list(entries) == CardList::Numbers(numbers),
        number::signed_value(bad) is Err,
        !text::has_prefix(other, "card"@),
    ensures
        card_list(entries.push(Some("card"@ + number::signed_decimal(n as int))))
            == CardList::Numbers(numbers.push(n)),
        card_list(entries.push(Some("card"@ + bad))) == CardList::BadName("card"@ + bad),
        card_list(entries.push(Some(other))) == CardList::Numbers(numbers),
        card_list(entries.push(None)) == CardList::Unreadable,
        card_list(Seq::empty()) == CardList::Numbers(Seq::empty()),
{
    let digits = number::signed_decimal(n as int);
    text::parts_are_found("card"@, digits);
    text::parts_are_found("card"@, bad);
    number::signed_decimal_reads_back(n);
    assert(entries.push(Some("card"@ + digits)).drop_last() =~= entries);
    assert(entries.push(Some("card"@ + bad)).drop_last() =~= entries);
    assert(entries.push(Some(other)).drop_last() =~= entries);
    assert(entries.push(None).drop_last() =~= entries);
}

/// What ends a list of cards is told whatever comes after it.
pub proof fn bad_cards_are_told(entries: Seq<Option<Seq<char>>>, more: Option<Seq<char>>)
    requires
        !(card_list(entries) is Numbers),
    ensures
        card_list(entries.push(more)) == card_list(entries),
{
    assert(entries.push(more).drop_last() =~= entries);
}

/// Entries keep their places and their names.
pub proof fn entries_keep_their_names(entries: Seq<Option<String>>, name: String)
    ensures
        entry_names(entries.push(Some(name))) == entry_names(entries).push(Some(name@)),
        entry_names(entries.push(None)) == entry_names(entries).push(None),
{
    assert(entry_names(entries.push(Some(name))) =~= entry_names(entries).push(Some(name@)));
    assert(entry_names(entries.push(None)) =~= entry_names(entries).push(None));
}

/// The module makes no device exactly where its parameter is `0`, whatever white space is around
/// it; a parameter that could not be read does not say so.
pub proof fn modules_without_devices_say_so(
    parameter: &str,
    before: Seq<char>,
    value: Seq<char>,
    after: Seq<char>,
)
    requires
        text::is_blank(before),
        text::is_blank(after),
        value.len() > 0,
        !text::is_space(value[0]),
        !text::is_space(value.last()),
        parameter@ == before + value + after,
    ensures
        makes_no_device(Some(parameter)) <==> value == "0"@,
        !makes_no_device(None),
{
    text::trimming_leaves_the_middle(before, value, after);
}

/// A version is counted as it is, as far as 31 bits can count it, and else wraps round.
pub proof fn versions_are_counted(expected: u32)
    ensures
        expected < 0x8000_0000 ==> version_number(expected) == expected,
        expected >= 0x8000_0000 ==> version_number(expected) + 0x1_0000_0000 == expected,
        i32::MIN <= version_number(expected) <= i32::MAX,
{
}

/// A row takes four bytes for each pixel, as far as 31 bits can count them.
pub proof fn rows_take_four_bytes_a_pixel(width: i32)
    requires
        width > 0,
    ensures
        width <= 0x1fff_ffff ==> row_bytes(width) == 4 * width,
        width > 0x1fff_ffff ==> row_bytes(width) == 0x7fff_ffff,
{
}

/// A card is opened only where it is available; else, and where it does not open, the next one is
/// looked at, and after the last the search has failed.
pub proof fn cards_are_tried_in_turn(
    next: HandleStep,
    cards: Seq<i32>,
    index: int,
    status: CardStatus,
    opened: bool,
)
    requires
        0 <= index < cards.len(),
    ensures
        follows_check(next, cards, index, status) && status == CardStatus::Available ==> (
        next matches HandleStep::Open { cards: c, index: i } && c@ == cards && i == index),
        follows_check(next, cards, index, status) && status != CardStatus::Available && index + 1
            < cards.len() ==> (next matches HandleStep::Check { cards: c, index: i } && c@ == cards
            && i == index + 1),
        follows_open(next, cards, index, opened) && opened ==> next is Opened,
        follows_open(next, cards, index, opened) && !opened && index + 1 < cards.len() ==> (
        next matches HandleStep::Check { cards: c, index: i } && c@ == cards && i == index + 1),
        follows_check(next, cards, index, status) && status != CardStatus::Available && index + 1
            == cards.len() ==> next == HandleStep::Failed(EvdiError::OpenFailed),
        follows_open(next, cards, index, opened) && !opened && index + 1 == cards.len() ==> next
            == HandleStep::Failed(EvdiError::OpenFailed),
{
}

/// A valid backend has an event descriptor and a mode with a positive size, and its rows take four
/// bytes for each pixel.
pub proof fn valid_backends_have_a_mode(backend: EvdiBackend)
    requires
        backend.width <= 0x1fff_ffff,
    ensures
        backend.valid() <==> backend.event_fd >= 0 && backend.width > 0 && backend.height > 0
            && backend.stride == 4 * backend.width,
{
}

/// A display without width, height or refresh rate is refused, and no other; of those that are not,
/// one of 1280 by 800 at 60 Hz has an EDID, and any other is refused with what it is.
pub proof fn displays_are_refused_by_their_size(
    config: DisplayConfig,
    valid: Result<(), EvdiError>,
    area: Result<u32, EvdiError>,
)
    requires
        call_ensures(validate_config, (config,), valid),
        call_ensures(require_edid_mode, (config,), area),
    ensures
        valid is Ok <==> config.width > 0 && config.height > 0 && config.refresh_hz > 0,
        area is Ok <==> config.width == 1280 && config.height == 800 && config.refresh_hz == 60,
        area matches Ok(pixels) ==> pixels == 1_024_000,
        area matches Err(err) ==> err == (EvdiError::UnsupportedMode {
            width: config.width,
            height: config.height,
            refresh_hz: config.refresh_hz,
        }),
{
}

/// A library is accepted exactly where it has the major version that is expected and no smaller
/// minor one, as far as 31 bits can count the versions.
pub proof fn libraries_are_accepted_by_version(
    library_major: i32,
    library_minor: i32,
    expected_major: u32,
    expected_minor: u32,
    out: Result<(), EvdiError>,
)
    requires
        expected_major < 0x8000_0000,
        expected_minor < 0x8000_0000,
        call_ensures(
            check_library_version,
            (library_major, library_minor, expected_major, expected_minor),
            out,
        ),
    ensures
        out is Ok <==> library_major == expected_major && library_minor >= expected_minor,
        out matches Err(err) ==> err == (EvdiError::IncompatibleLib {
            library_major,
            library_minor,
            expected_major,
            expected_minor,
        }),
{
}

/// A mode is taken exactly where it has a size and at least 24 bits a pixel, and then a row takes
/// four bytes a pixel; a buffer for it takes its rows one after the other.
pub proof fn modes_are_taken_with_their_rows(
    mode: NegotiatedMode,
    height: i32,
    stride: Result<i32, EvdiError>,
    len: Option<usize>,
)
    requires
        mode.width <= 0x1fff_ffff,
        0 <= height,
        call_ensures(compute_stride, (mode,), stride),
        stride matches Ok(bytes) && call_ensures(framebuffer_len, (bytes, height), len),
    ensures
        mode.width > 0,
        mode.height > 0,
        mode.bits_per_pixel >= 24,
        stride == Ok::<i32, EvdiError>((mode.width * 4) as i32),
        len matches Some(n) ==> n == mode.width * 4 * height,
        len is None ==> mode.width * 4 * height > usize::MAX,
{
}

/// A mode without size, or with fewer bits a pixel, is refused.
pub proof fn modes_without_pixels_are_refused(mode: NegotiatedMode, stride: Result<i32, EvdiError>)
    requires
        call_ensures(compute_stride, (mode,), stride),
    ensures
        stride is Ok <==> mode.width > 0 && mode.height > 0 && mode.bits_per_pixel >= 24,
        stride matches Err(err) ==> err is InvalidNegotiatedMode,
        mode.width > 0 && mode.height > 0 && mode.bits_per_pixel < 24 ==> (stride matches Err(err)
            && text::has_suffix(err.text(), number::signed_decimal(mode.bits_per_pixel as int))),
{
    let bits = number::signed_decimal(mode.bits_per_pixel as int);
    if mode.width > 0 && mode.height > 0 && mode.bits_per_pixel < 24 {
        if let Err(err) = stride {
            let head = "mode negotiated by compositor was invalid: "@
                + "unsupported bits_per_pixel "@;
            assert(err.text() =~= head + bits);
            text::parts_are_found(head, bits);
        }
    }
}

/// A wait is as long as it is asked to be, as far as `poll` can count it; a wait that failed is
/// told with the reason, and one that found nothing has nothing to read.
pub proof fn waits_are_as_long_as_asked(
    millis: u128,
    timeout: i32,
    count: i32,
    events: i16,
    readable: i16,
    failure: String,
    found: Result<bool, EvdiError>,
)
    requires
        call_ensures(poll_timeout, (millis,), timeout),
        call_ensures(poll_outcome, (count, events, readable, failure), found),
    ensures
        millis <= 0x7fff_ffff ==> timeout == millis,
        millis > 0x7fff_ffff ==> timeout == 0x7fff_ffff,
        count < 0 ==> (found matches Err(err) && text::has_suffix(err.text(), failure@)),
        count == 0 ==> found == Ok::<bool, EvdiError>(false),
        count > 0 ==> found == Ok::<bool, EvdiError>((events & readable) != 0),
{
    if let Err(err) = found {
        errors_tell_their_reason(err);
    }
}

/// A capture takes as many frames as are wanted, of the one format that can be exported; none are
/// taken where none are wanted, whatever the format.
pub proof fn captures_take_the_frames_that_are_wanted(
    backend: EvdiBackend,
    capture: CaptureConfig,
    out: Result<Option<CaptureRun>, EvdiError>,
)
    requires
        call_ensures(EvdiBackend::capture_frames_to_png, (&backend, &capture), out),
    ensures
        capture.frames == 0 <==> out == Ok::<Option<CaptureRun>, EvdiError>(None),
        capture.frames > 0 && backend.pixel_format == 875_713_112 ==> (out matches Ok(Some(run))
            && run.wanted == capture.frames && run.taken == 0 && !run.saw_picture
            && run.gives_up_on_black),
        capture.frames > 0 && backend.pixel_format != 875_713_112 ==> out == Err::<
            Option<CaptureRun>,
            EvdiError,
        >(EvdiError::UnsupportedPixelFormat(backend.pixel_format)),
{
}

/// The picture of a frame is written to the file of its number in the directory that is told, shows
/// each pixel of the frame, and is called black exactly where no pixel has a colour.
pub proof fn pictures_are_those_of_the_frame(
    backend: EvdiBackend,
    output_dir: &str,
    index: usize,
    framebuffer: &[u8],
    out: Option<FramePicture>,
    x: nat,
    y: nat,
)
    requires
        backend.valid(),
        backend.width * backend.height * 4 <= isize::MAX,
        x < backend.width,
        y < backend.height,
        call_ensures(EvdiBackend::picture, (&backend, output_dir, index, framebuffer), out),
    ensures
        out is Some <==> (backend.height - 1) * backend.stride + backend.width * 4
            <= framebuffer@.len(),
        out matches Some(picture) ==> {
            &&& picture.path@ == path::join(output_dir@, capture::frame_name(index as nat))
            &&& picture.black <==> (forall|a: nat, b: nat|
                a < backend.width && b < backend.height ==> !#[trigger] capture::has_colour(
                    framebuffer@,
                    backend.stride as nat,
                    a,
                    b,
                ))
            &&& picture.rgba@[((y * backend.width + x) * 4) as int] == framebuffer@[(y
                * backend.stride + x * 4 + 2) as int]
            &&& picture.rgba@[((y * backend.width + x) * 4 + 1) as int] == framebuffer@[(y
                * backend.stride + x * 4 + 1) as int]
            &&& picture.rgba@[((y * backend.width + x) * 4 + 2) as int] == framebuffer@[(y
                * backend.stride + x * 4) as int]
            &&& picture.rgba@[((y * backend.width + x) * 4 + 3) as int] == 0xff
        },
{
    if let Some(picture) = out {
        capture::pictures_show_every_pixel(
            picture.rgba@,
            framebuffer@,
            backend.width as nat,
            backend.height as nat,
            backend.stride as nat,
            x,
            y,
        );
        capture::black_frames_have_no_colour(
            framebuffer@,
            backend.width as nat,
            backend.height as nat,
            backend.stride as nat,
        );
    }
}

/// A search looks at an attached device first, asks for a new one next, and goes through the cards
/// last; it ends with the first device that is open, and where the module makes none it does not
/// begin.
pub proof fn searches_go_from_near_to_far(
    zero: bool,
    opened: bool,
    card: i32,
    begun: HandleStep,
    attached: HandleStep,
    added: HandleStep,
    open: HandleStep,
)
    requires
        call_ensures(HandleStep::begin, (zero,), begun),
        call_ensures(HandleStep::after_attached, (opened,), attached),
        call_ensures(HandleStep::after_added, (card,), added),
        call_ensures(HandleStep::after_open_added, (opened,), open),
    ensures
        zero ==> begun == HandleStep::Failed(EvdiError::ZeroInitialDeviceCount),
        !zero ==> begun is OpenAttached,
        opened ==> attached is Opened && open is Opened,
        !opened ==> attached is AddDevice && open is ListCards,
        card >= 0 ==> added == HandleStep::OpenAdded(card),
        card < 0 ==> added is ListCards,
{
}

} // verus!
