//! Values that the service reports, and how they are shown.

use crate::error::{failure, ErrorKind, Failure};
use crate::text::{fixed2, fixed2_text, option_view, same_text};
use vstd::prelude::*;
use vstd::string::*;

verus! {

/// The state of a torrent, as the service names it.
#[derive(Debug, Clone, Copy, PartialEq, Eq, Structural)]
pub enum TorrentState {
    Error,
    MissingFiles,
    Uploading,
    PausedUP,
    QueuedUP,
    StalledUP,
    CheckingUP,
    ForcedUP,
    Allocating,
    Downloading,
    MetaDL,
    PausedDL,
    QueuedDL,
    StalledDL,
    CheckingDL,
    ForcedDL,
    CheckingResumeData,
    Moving,
    ForcedMetaDL,
    Unknown,
}

impl TorrentState {
    /// The name of the state on the wire.
    pub open spec fn wire_name(self) -> Seq<char> {
        match self {
            TorrentState::Error => "error"@,
            TorrentState::MissingFiles => "missingFiles"@,
            TorrentState::Uploading => "uploading"@,
            TorrentState::PausedUP => "pausedUP"@,
            TorrentState::QueuedUP => "queuedUP"@,
            TorrentState::StalledUP => "stalledUP"@,
            TorrentState::CheckingUP => "checkingUP"@,
            TorrentState::ForcedUP => "forcedUP"@,
            TorrentState::Allocating => "allocating"@,
            TorrentState::Downloading => "downloading"@,
            TorrentState::MetaDL => "metaDL"@,
            TorrentState::PausedDL => "pausedDL"@,
            TorrentState::QueuedDL => "queuedDL"@,
            TorrentState::StalledDL => "stalledDL"@,
            TorrentState::CheckingDL => "checkingDL"@,
            TorrentState::ForcedDL => "forcedDL"@,
            TorrentState::CheckingResumeData => "checkingResumeData"@,
            TorrentState::Moving => "moving"@,
            TorrentState::ForcedMetaDL => "forcedMetaDL"@,
            TorrentState::Unknown => "unknown"@,
        }
    }

    /// The state that a name on the wire stands for: the state with that
    /// name, and `Unknown` for every other text.
    pub open spec fn decode(name: Seq<char>) -> TorrentState {
        if name == TorrentState::Error.wire_name() {
            TorrentState::Error
        } else if name == TorrentState::MissingFiles.wire_name() {
            TorrentState::MissingFiles
        } else if name == TorrentState::Uploading.wire_name() {
            TorrentState::Uploading
        } else if name == TorrentState::PausedUP.wire_name() {
            TorrentState::PausedUP
        } else if name == TorrentState::QueuedUP.wire_name() {
            TorrentState::QueuedUP
        } else if name == TorrentState::StalledUP.wire_name() {
            TorrentState::StalledUP
        } else if name == TorrentState::CheckingUP.wire_name() {
            TorrentState::CheckingUP
        } else if name == TorrentState::ForcedUP.wire_name() {
            TorrentState::ForcedUP
        } else if name == TorrentState::Allocating.wire_name() {
            TorrentState::Allocating
        } else if name == TorrentState::Downloading.wire_name() {
            TorrentState::Downloading
        } else if name == TorrentState::MetaDL.wire_name() {
            TorrentState::MetaDL
        } else if name == TorrentState::PausedDL.wire_name() {
            TorrentState::PausedDL
        } else if name == TorrentState::QueuedDL.wire_name() {
            TorrentState::QueuedDL
        } else if name == TorrentState::StalledDL.wire_name() {
            TorrentState::StalledDL
        } else if name == TorrentState::CheckingDL.wire_name() {
            TorrentState::CheckingDL
        } else if name == TorrentState::ForcedDL.wire_name() {
            TorrentState::ForcedDL
        } else if name == TorrentState::CheckingResumeData.wire_name() {
            TorrentState::CheckingResumeData
        } else if name == TorrentState::Moving.wire_name() {
            TorrentState::Moving
        } else if name == TorrentState::ForcedMetaDL.wire_name() {
            TorrentState::ForcedMetaDL
        } else {
            TorrentState::Unknown
        }
    }

    /// Reads a state from its name on the wire. Every text is read: one
    /// that names no state gives `Unknown`.
    pub fn from_wire(name: &str) -> (r: TorrentState)
        ensures
            r == TorrentState::decode(name@),
            (forall|s: TorrentState| name@ != #[trigger] s.wire_name()) ==> r
                == TorrentState::Unknown,
    {
        if same_text(name, "error") {
            TorrentState::Error
        } else if same_text(name, "missingFiles") {
            TorrentState::MissingFiles
        } else if same_text(name, "uploading") {
            TorrentState::Uploading
        } else if same_text(name, "pausedUP") {
            TorrentState::PausedUP
        } else if same_text(name, "queuedUP") {
            TorrentState::QueuedUP
        } else if same_text(name, "stalledUP") {
            TorrentState::StalledUP
        } else if same_text(name, "checkingUP") {
            TorrentState::CheckingUP
        } else if same_text(name, "forcedUP") {
            TorrentState::ForcedUP
        } else if same_text(name, "allocating") {
            TorrentState::Allocating
        } else if same_text(name, "downloading") {
            TorrentState::Downloading
        } else if same_text(name, "metaDL") {
            TorrentState::MetaDL
        } else if same_text(name, "pausedDL") {
            TorrentState::PausedDL
        } else if same_text(name, "queuedDL") {
            TorrentState::QueuedDL
        } else if same_text(name, "stalledDL") {
            TorrentState::StalledDL
        } else if same_text(name, "checkingDL") {
            TorrentState::CheckingDL
        } else if same_text(name, "forcedDL") {
            TorrentState::ForcedDL
        } else if same_text(name, "checkingResumeData") {
            TorrentState::CheckingResumeData
        } else if same_text(name, "moving") {
            TorrentState::Moving
        } else if same_text(name, "forcedMetaDL") {
            TorrentState::ForcedMetaDL
        } else {
            TorrentState::Unknown
        }
    }

    /// The short code of the state.
    pub open spec fn short_code(self) -> Seq<char> {
        match self {
            TorrentState::Error => "Error"@,
            TorrentState::MissingFiles => "MissingFiles"@,
            TorrentState::Uploading => "Uploading"@,
            TorrentState::PausedUP => "PausedUP"@,
            TorrentState::QueuedUP => "QueuedUP"@,
            TorrentState::StalledUP => "StalledUP"@,
            TorrentState::CheckingUP => "CheckingUP"@,
            TorrentState::ForcedUP => "ForcedUP"@,
            TorrentState::Allocating => "Allocating"@,
            TorrentState::Downloading => "Downloading"@,
            TorrentState::MetaDL => "MetaDL"@,
            TorrentState::PausedDL => "PausedDL"@,
            TorrentState::QueuedDL => "QueuedDL"@,
            TorrentState::StalledDL => "StalledDL"@,
            TorrentState::CheckingDL => "CheckingDL"@,
            TorrentState::ForcedDL => "ForcedDL"@,
            TorrentState::CheckingResumeData => "CheckingResumeData"@,
            TorrentState::Moving => "Moving"@,
            TorrentState::ForcedMetaDL => "ForcedMetaDL"@,
            TorrentState::Unknown => "Unknown"@,
        }
    }

    /// The long description of the state.
    pub open spec fn description(self) -> Seq<char> {
        match self {
            TorrentState::Error => "Some error occurred, applies to paused torrents"@,
            TorrentState::MissingFiles => "Torrent data files are missing"@,
            TorrentState::Uploading => "Torrent is being seeded and data is being transferred"@,
            TorrentState::PausedUP => "Torrent is paused and has finished downloading"@,
            TorrentState::QueuedUP => "Queuing is enabled and torrent is queued for upload"@,
            TorrentState::StalledUP => "Torrent is being seeded, but no connections were made"@,
            TorrentState::CheckingUP => "Torrent has finished downloading and is being checked"@,
            TorrentState::ForcedUP => "Torrent is forced to uploading and ignores queue limit"@,
            TorrentState::Allocating => "Torrent is allocating disk space for download"@,
            TorrentState::Downloading => "Torrent is being downloaded and data is being transferred"@,
            TorrentState::MetaDL => "Torrent has just started downloading and is fetching metadata"@,
            TorrentState::PausedDL => "Torrent is paused and has NOT finished downloading"@,
            TorrentState::QueuedDL => "Queuing is enabled and torrent is queued for download"@,
            TorrentState::StalledDL => "Torrent is being downloaded, but no connections were made"@,
            TorrentState::CheckingDL => "Same as checkingUP, but torrent has NOT finished downloading"@,
            TorrentState::ForcedDL => "Torrent is forced to downloading to ignore queue limit"@,
            TorrentState::CheckingResumeData => "Checking resume data on qBt startup"@,
            TorrentState::Moving => "Torrent is moving to another location"@,
            TorrentState::ForcedMetaDL => "[UNDOCUMENTED]"@,
            TorrentState::Unknown => "Unknown status"@,
        }
    }

    /// What is shown for the state: the long description where `verbose`,
    /// the short code otherwise.
    pub open spec fn label_text(self, verbose: bool) -> Seq<char> {
        if verbose {
            self.description()
        } else {
            self.short_code()
        }
    }

    /// The short code of the state, or its long description where
    /// `verbose`.
    pub fn label(&self, verbose: bool) -> (r: &'static str)
        ensures
            r@ == self.label_text(verbose),
    {
        if verbose {
            match self {
                TorrentState::Error => "Some error occurred, applies to paused torrents",
                TorrentState::MissingFiles => "Torrent data files are missing",
                TorrentState::Uploading => "Torrent is being seeded and data is being transferred",
                TorrentState::PausedUP => "Torrent is paused and has finished downloading",
                TorrentState::QueuedUP => "Queuing is enabled and torrent is queued for upload",
                TorrentState::StalledUP => "Torrent is being seeded, but no connections were made",
                TorrentState::CheckingUP => "Torrent has finished downloading and is being checked",
                TorrentState::ForcedUP => "Torrent is forced to uploading and ignores queue limit",
                TorrentState::Allocating => "Torrent is allocating disk space for download",
                TorrentState::Downloading => "Torrent is being downloaded and data is being transferred",
                TorrentState::MetaDL => "Torrent has just started downloading and is fetching metadata",
                TorrentState::PausedDL => "Torrent is paused and has NOT finished downloading",
                TorrentState::QueuedDL => "Queuing is enabled and torrent is queued for download",
                TorrentState::StalledDL => "Torrent is being downloaded, but no connections were made",
                TorrentState::CheckingDL => "Same as checkingUP, but torrent has NOT finished downloading",
                TorrentState::ForcedDL => "Torrent is forced to downloading to ignore queue limit",
                TorrentState::CheckingResumeData => "Checking resume data on qBt startup",
                TorrentState::Moving => "Torrent is moving to another location",
                TorrentState::ForcedMetaDL => "[UNDOCUMENTED]",
                TorrentState::Unknown => "Unknown status",
            }
        } else {
            match self {
                TorrentState::Error => "Error",
                TorrentState::MissingFiles => "MissingFiles",
                TorrentState::Uploading => "Uploading",
                TorrentState::PausedUP => "PausedUP",
                TorrentState::QueuedUP => "QueuedUP",
                TorrentState::StalledUP => "StalledUP",
                TorrentState::CheckingUP => "CheckingUP",
                TorrentState::ForcedUP => "ForcedUP",
                TorrentState::Allocating => "Allocating",
                TorrentState::Downloading => "Downloading",
                TorrentState::MetaDL => "MetaDL",
                TorrentState::PausedDL => "PausedDL",
                TorrentState::QueuedDL => "QueuedDL",
                TorrentState::StalledDL => "StalledDL",
                TorrentState::CheckingDL => "CheckingDL",
                TorrentState::ForcedDL => "ForcedDL",
                TorrentState::CheckingResumeData => "CheckingResumeData",
                TorrentState::Moving => "Moving",
                TorrentState::ForcedMetaDL => "ForcedMetaDL",
                TorrentState::Unknown => "Unknown",
            }
        }
    }
}


/// Every state is read back from its own name on the wire.
pub proof fn lemma_wire_name_decodes(s: TorrentState)
    ensures
        TorrentState::decode(s.wire_name()) == s,
{
    reveal_strlit("error");
    reveal_strlit("missingFiles");
    reveal_strlit("uploading");
    reveal_strlit("pausedUP");
    reveal_strlit("queuedUP");
    reveal_strlit("stalledUP");
    reveal_strlit("checkingUP");
    reveal_strlit("forcedUP");
    reveal_strlit("allocating");
    reveal_strlit("downloading");
    reveal_strlit("metaDL");
    reveal_strlit("pausedDL");
    reveal_strlit("queuedDL");
    reveal_strlit("stalledDL");
    reveal_strlit("checkingDL");
    reveal_strlit("forcedDL");
    reveal_strlit("checkingResumeData");
    reveal_strlit("moving");
    reveal_strlit("forcedMetaDL");
    reveal_strlit("unknown");
    // The names are told apart by their lengths, and those of one
    // length by one of these characters.
    assert("error"@.len() == 5 && "unknown"@.len() == 7 && "downloading"@.len() == 11);
    assert("checkingResumeData"@.len() == 18);
    assert("metaDL"@[1] == 'e' && "moving"@[1] == 'o');
    assert("pausedUP"@[0] == 'p' && "queuedUP"@[0] == 'q' && "forcedUP"@[0] == 'f');
    assert("pausedDL"@[0] == 'p' && "queuedDL"@[0] == 'q' && "forcedDL"@[0] == 'f');
    assert("pausedUP"@[6] == 'U' && "queuedUP"@[6] == 'U' && "forcedUP"@[6] == 'U');
    assert("pausedDL"@[6] == 'D' && "queuedDL"@[6] == 'D' && "forcedDL"@[6] == 'D');
    assert("uploading"@[0] == 'u' && "stalledUP"@[7] == 'U' && "stalledDL"@[7] == 'D');
    assert("stalledUP"@[0] == 's' && "stalledDL"@[0] == 's');
    assert("allocating"@[0] == 'a' && "checkingUP"@[0] == 'c' && "checkingDL"@[0] == 'c');
    assert("checkingUP"@[8] == 'U' && "checkingDL"@[8] == 'D');
    assert("missingFiles"@[0] == 'm' && "forcedMetaDL"@[0] == 'f');
}

/// The progress of a finished torrent. Progress is counted in millionths
/// of the whole, so that a fraction `p` of the whole is `p * 1000000`,
/// rounded down.
pub const PROGRESS_FULL: u32 = 1000000;

/// The number of cells of the bar that are filled at a progress: one for
/// each full tenth of the whole, and never more than ten.
pub open spec fn filled_cells(progress: nat) -> nat {
    if progress >= 1000000 {
        10
    } else {
        progress / 100000
    }
}

/// The bar with `filled` cells filled: `<`, ten cells of which the first
/// `filled` are `#` and the others `_`, and `>`.
pub open spec fn progress_bar(filled: nat) -> Seq<char> {
    seq!['<'] + Seq::new(10, |i: int| if i < filled { '#' } else { '_' }) + seq!['>']
}

/// Draws the bar for a progress.
pub fn progress_render(progress: u32) -> (r: String)
    ensures
        r@ == progress_bar(filled_cells(progress as nat)),
        r@.len() == 12,
        r@[0] == '<',
        r@[11] == '>',
        forall|i: int|
            1 <= i <= 10 ==> r@[i] == (if i <= filled_cells(progress as nat) {
                '#'
            } else {
                '_'
            }),
{
    let filled: u32 = if progress >= PROGRESS_FULL {
        10
    } else {
        progress / 100000
    };
    let mut r = String::from_str("<");
    let mut i: u32 = 0;
    proof {
        reveal_strlit("<");
        reveal_strlit("#");
        reveal_strlit("_");
        reveal_strlit(">");
    }
    while i < 10
        invariant
            i <= 10,
            filled == filled_cells(progress as nat),
            r@.len() == i + 1,
            r@[0] == '<',
            forall|k: int| 1 <= k <= i ==> r@[k] == (if k <= filled { '#' } else { '_' }),
            "#"@ =~= seq!['#'],
            "_"@ =~= seq!['_'],
        decreases 10 - i,
    {
        if i < filled {
            r.append("#");
        } else {
            r.append("_");
        }
        i += 1;
    }
    r.append(">");
    assert(r@ =~= progress_bar(filled_cells(progress as nat)));
    r
}

/// A progress as a percentage with two places, rounded to the nearest
/// hundredth of a percent; a half goes up.
pub open spec fn percent(progress: nat) -> Seq<char> {
    fixed2((progress + 50) / 100)
}

/// Writes a progress as a percentage with two places.
pub fn percent_text(progress: u32) -> (r: String)
    ensures
        r@ == percent(progress as nat),
{
    let hundredths: u64 = (progress as u64 + 50) / 100;
    fixed2_text(hundredths)
}

/// The answer that an empty line stands for.
#[derive(Debug, Clone, Copy, PartialEq, Eq, Structural)]
pub enum DefaultChoice {
    Yes,
    No,
}

/// The hint that follows a question: the answer that is the default is
/// written as a capital.
pub open spec fn choice_hint(default: DefaultChoice) -> Seq<char> {
    match default {
        DefaultChoice::No => "y/N"@,
        DefaultChoice::Yes => "Y/n"@,
    }
}

/// The line that asks the question `text`.
pub open spec fn confirm_prompt_text(text: Seq<char>, default: DefaultChoice) -> Seq<char> {
    text + " ["@ + choice_hint(default) + "] "@
}

/// The line that asks the user to confirm `text`.
pub fn confirm_prompt(text: &str, default: DefaultChoice) -> (r: String)
    ensures
        r@ == confirm_prompt_text(text@, default),
{
    let mut r = String::from_str(text);
    r.append(" [");
    match default {
        DefaultChoice::No => r.append("y/N"),
        DefaultChoice::Yes => r.append("Y/n"),
    }
    r.append("] ");
    r
}

/// Whether an answer confirms: `y` or `Y` does, an empty line does where
/// the default is yes, and nothing else does.
pub open spec fn confirms(answer: Seq<char>, default: DefaultChoice) -> bool {
    if answer.len() == 0 {
        default == DefaultChoice::Yes
    } else {
        answer == "y"@ || answer == "Y"@
    }
}

/// Decides from the line that the user gave whether the question was
/// answered with yes.
pub fn confirm(answer: &str, default: DefaultChoice) -> (r: bool)
    ensures
        r == confirms(answer@, default),
{
    if answer.is_empty() {
        match default {
            DefaultChoice::Yes => true,
            DefaultChoice::No => false,
        }
    } else {
        same_text(answer, "y") || same_text(answer, "Y")
    }
}

/// The status with which the service rejects a cookie.
pub const STATUS_FORBIDDEN: u16 = 403;

/// The line that tells the user that the stored cookie was rejected.
pub open spec fn expired_message() -> Seq<char> {
    "Your cookie is expired. Run the auth add command again to renew it."@
}

/// Judges the status of an answer: a rejected cookie is a failure on which
/// the program leaves at once, every other status passes.
pub fn exit_if_expired(status: u16) -> (r: Option<Failure>)
    ensures
        r is Some <==> status == STATUS_FORBIDDEN,
        r matches Some(f) ==> f@ == (ErrorKind::SessionExpired, expired_message()),
{
    if status == STATUS_FORBIDDEN {
        Some(
            failure(
                ErrorKind::SessionExpired,
                "Your cookie is expired. Run the auth add command again to renew it.",
            ),
        )
    } else {
        None
    }
}

/// The date and time that `chrono` prints for a number of seconds since
/// the start of 1970: the date as year, month and day, a space, and the
/// time as `HH:MM:SS`, without a time zone. The year has four digits from
/// 0 to 9999, and a sign and at least four digits outside of that. `None`
/// where that moment is outside of what `chrono` can hold.
pub uninterp spec fn naive_datetime_text(epoch: i64) -> Option<Seq<char>>;

/// Calls `chrono::NaiveDateTime::from_timestamp_opt` with no nanoseconds and
/// prints what it gives. The contract only names the result: it is what
/// `chrono` computes from the number of seconds, and nothing else is
/// claimed of it.
#[verifier::external_body]
#[allow(deprecated)]
fn naive_datetime(epoch: i64) -> (r: Option<String>)
    ensures
        option_view(r) == naive_datetime_text(epoch),
{
    chrono::NaiveDateTime::from_timestamp_opt(epoch, 0).map(|t| t.to_string())
}

/// The date and time of a Unix timestamp, or `None` where the timestamp is
/// out of range.
pub fn epoch_to_datetime(epoch: i64) -> (r: Option<String>)
    ensures
        option_view(r) == naive_datetime_text(epoch),
{
    naive_datetime(epoch)
}

/// The size that `humansize` prints for a number of bytes with its
/// `DECIMAL` options: a number with at most two decimal places, a space
/// and a unit in steps of 1000.
pub uninterp spec fn decimal_size_text(bytes: u64) -> Seq<char>;

/// Calls `humansize::format_size` with `humansize::DECIMAL`. The contract
/// only names the result: it is what `humansize` computes from the number
/// of bytes, and nothing else is claimed of it.
#[verifier::external_body]
fn format_size_decimal(bytes: u64) -> (r: String)
    ensures
        r@ == decimal_size_text(bytes),
{
    humansize::format_size(bytes, humansize::DECIMAL)
}

/// A number of bytes as a size for people to read, in units of 1000.
pub fn human_size(bytes: u64) -> (r: String)
    ensures
        r@ == decimal_size_text(bytes),
{
    format_size_decimal(bytes)
}

} // verus!
