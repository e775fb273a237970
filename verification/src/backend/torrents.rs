//! The commands on torrents: what each sends, what it prints for the
//! answer, and the view that lists the torrents again and again.

use crate::backend::request::{
    built, call, check_reply, judged, make_call, make_session_call, one_field, parse_url,
    push_field, session_call, unreadable_message, url_parsed, Body, Encoding, Expect, Method,
    Reply, Request, RequestView, TorrentFile, TorrentInfo,
};
use crate::backend::util::{
    confirm_prompt, confirm_prompt_text, decimal_size_text, epoch_to_datetime, filled_cells,
    human_size, naive_datetime_text, percent, percent_text, progress_bar, progress_render,
    DefaultChoice,
};
use crate::cli::TorrentSortingOptions;
use crate::config::{RequestInfo, SessionView};
use crate::error::{failure, ErrorKind, Failure};
use crate::text::{
    bool_text, bool_word, decimal, decimal_text, fixed2, fixed2_text, join, joined, pairs_view,
    same_text, Pairs,
};
use vstd::prelude::*;
use vstd::string::*;

verus! {

/// The fields of the request for the list of torrents: what to sort by,
/// then `reverse` where the order is reversed, then the limit where there
/// is one.
pub open spec fn list_fields(
    sort_by: TorrentSortingOptions,
    reverse: bool,
    limit: Option<u32>,
) -> Pairs {
    seq![("sort"@, sort_by.sort_name())] + (if reverse {
        seq![("reverse"@, "true"@)]
    } else {
        Seq::empty()
    }) + (match limit {
        Some(n) => seq![("limit"@, decimal(n as nat))],
        None => Seq::empty(),
    })
}

/// The request for the list of torrents.
pub open spec fn list_call(
    info: SessionView,
    sort_by: TorrentSortingOptions,
    reverse: bool,
    limit: Option<u32>,
) -> Result<RequestView, (ErrorKind, Seq<char>)> {
    session_call(
        info,
        Method::Get,
        "api/v2/torrents/info"@,
        Encoding::Query,
        list_fields(sort_by, reverse, limit),
        Expect::Torrents,
    )
}

/// What is printed for one torrent, given its size and the time at which
/// it was added as they are to be shown.
pub open spec fn torrent_block(t: TorrentInfo, size: Seq<char>, added: Seq<char>) -> Seq<char> {
    "   | "@ + t.name@ + "\n   |\n   |  > Hash: "@ + t.hash@ + "\n   |  > Progress: "@ + percent(
        t.progress as nat,
    ) + "% "@ + progress_bar(filled_cells(t.progress as nat)) + "\n   |  > Size: "@ + size
        + "\n   |  > Added on: "@ + added + "\n   |  > Ratio: "@ + fixed2(t.ratio as nat)
        + "\n   |  > State: "@ + t.state.short_code() + " ("@ + t.state.description()
        + ")\n\n\n"@
}

/// Writes what is printed for one torrent.
pub fn render_torrent(t: &TorrentInfo, size: &str, added: &str) -> (r: String)
    ensures
        r@ == torrent_block(*t, size@, added@),
{
    let mut r = String::from_str("   | ");
    r.append(t.name.as_str());
    r.append("\n   |\n   |  > Hash: ");
    r.append(t.hash.as_str());
    r.append("\n   |  > Progress: ");
    let done = percent_text(t.progress);
    r.append(done.as_str());
    r.append("% ");
    let bar = progress_render(t.progress);
    r.append(bar.as_str());
    r.append("\n   |  > Size: ");
    r.append(size);
    r.append("\n   |  > Added on: ");
    r.append(added);
    r.append("\n   |  > Ratio: ");
    let ratio = fixed2_text(t.ratio);
    r.append(ratio.as_str());
    r.append("\n   |  > State: ");
    r.append(t.state.label(false));
    r.append(" (");
    r.append(t.state.label(true));
    r.append(")\n\n\n");
    r
}

/// The time of a timestamp as it is shown; the empty text stands for a
/// timestamp that has none.
pub open spec fn time_text(epoch: i64) -> Seq<char> {
    match naive_datetime_text(epoch) {
        Some(text) => text,
        None => Seq::empty(),
    }
}

/// Whether each torrent was added at a time that can be shown.
pub open spec fn all_dated(ts: Seq<TorrentInfo>) -> bool {
    forall|i: int| 0 <= i < ts.len() ==> naive_datetime_text(#[trigger] ts[i].added_on) is Some
}

/// What is printed for the torrents, one after the other.
pub open spec fn torrents_text(ts: Seq<TorrentInfo>) -> Seq<char>
    decreases ts.len(),
{
    if ts.len() == 0 {
        Seq::empty()
    } else {
        torrents_text(ts.drop_last()) + torrent_block(
            ts.last(),
            decimal_size_text(ts.last().size),
            time_text(ts.last().added_on),
        )
    }
}

/// Writes what is printed for the torrents, or nothing where one of them
/// was added at a time that cannot be shown.
pub fn render_torrents(ts: &Vec<TorrentInfo>) -> (r: Option<String>)
    ensures
        r is Some <==> all_dated(ts@),
        r matches Some(s) ==> s@ == torrents_text(ts@),
{
    let mut r = String::new();
    let mut i: usize = 0;
    while i < ts.len()
        invariant
            i <= ts@.len(),
            all_dated(ts@.take(i as int)),
            r@ == torrents_text(ts@.take(i as int)),
        decreases ts@.len() - i,
    {
        let t = &ts[i];
        let added = match epoch_to_datetime(t.added_on) {
            Some(text) => text,
            None => {
                return None;
            },
        };
        let size = human_size(t.size);
        let block = render_torrent(t, size.as_str(), added.as_str());
        r.append(block.as_str());
        proof {
            let grown = ts@.take(i + 1);
            assert(grown.drop_last() =~= ts@.take(i as int));
            assert(grown.last() == ts@[i as int]);
            assert forall|k: int| 0 <= k < grown.len() implies naive_datetime_text(
                #[trigger] grown[k].added_on,
            ) is Some by {
                if k < i {
                    assert(ts@.take(i as int)[k] == grown[k]);
                }
            }
        }
        i += 1;
    }
    proof {
        assert(ts@.take(ts@.len() as int) =~= ts@);
    }
    Some(r)
}

/// The word that follows the name of the order where it is reversed.
pub open spec fn reversed_word(reverse: bool) -> Seq<char> {
    if reverse {
        "(reversed)"@
    } else {
        Seq::empty()
    }
}

/// The line that says how often the list was fetched again, where it is
/// fetched again at all.
pub open spec fn refreshed_text(interval: Option<u64>, refresh_counter: u64) -> Seq<char> {
    match interval {
        Some(ms) => "\nRefreshed "@ + decimal(refresh_counter as nat) + " times, every "@
            + decimal(ms as nat) + "ms"@,
        None => Seq::empty(),
    }
}

/// What is printed below the torrents.
pub open spec fn list_footer(
    count: nat,
    sort_by: TorrentSortingOptions,
    reverse: bool,
    interval: Option<u64>,
    refresh_counter: u64,
) -> Seq<char> {
    "Found "@ + decimal(count) + " torrents, sorted by: "@ + sort_by.sort_name() + " "@
        + reversed_word(reverse) + refreshed_text(interval, refresh_counter) + "\n"@
}

/// Writes what is printed below the torrents.
pub fn render_list_footer(
    count: usize,
    sort_by: TorrentSortingOptions,
    reverse: bool,
    interval: Option<u64>,
    refresh_counter: u64,
) -> (r: String)
    ensures
        r@ == list_footer(count as nat, sort_by, reverse, interval, refresh_counter),
{
    let mut refreshed = String::new();
    match interval {
        Some(ms) => {
            refreshed.append("\nRefreshed ");
            let times = decimal_text(refresh_counter);
            refreshed.append(times.as_str());
            refreshed.append(" times, every ");
            let every = decimal_text(ms);
            refreshed.append(every.as_str());
            refreshed.append("ms");
            assert(refreshed@ =~= refreshed_text(interval, refresh_counter));
        },
        None => {},
    }
    let mut r = String::from_str("Found ");
    let number = decimal_text(count as u64);
    r.append(number.as_str());
    r.append(" torrents, sorted by: ");
    r.append(sort_by.name());
    r.append(" ");
    if reverse {
        r.append("(reversed)");
    } else {
        assert(r@ + reversed_word(reverse) =~= r@);
    }
    r.append(refreshed.as_str());
    r.append("\n");
    r
}

/// The page that one fetch of the list gives: the torrents, and below
/// them how many there are, how they are sorted and how often the list
/// was fetched again.
pub open spec fn list_page(
    ts: Seq<TorrentInfo>,
    sort_by: TorrentSortingOptions,
    reverse: bool,
    interval: Option<u64>,
    refresh_counter: u64,
) -> Seq<char> {
    "\n\n"@ + torrents_text(ts) + list_footer(ts.len(), sort_by, reverse, interval, refresh_counter)
}

/// The line that tells the user that a time in the answer cannot be shown.
pub open spec fn bad_time_message() -> Seq<char> {
    "The answer of the service holds a time that is out of range."@
}

/// Where the view of the list stands.
#[derive(Debug, Clone, Copy, PartialEq, Eq, Structural)]
pub enum ListState {
    /// The request for the list is out; its answer is awaited.
    Fetch,
    /// A page was handed out to be shown.
    Render,
    /// The program sleeps until the list is fetched again.
    Sleep,
    /// The list was shown and is not fetched again.
    Done,
    /// The list could not be fetched or shown.
    Fatal,
}

/// What happened outside of the view.
#[derive(Debug, PartialEq, Eq)]
pub enum ListEvent {
    /// The request was answered.
    Fetched(Reply),
    /// The page was shown.
    Rendered,
    /// The sleep is over.
    Woke,
}

/// What the program is to do next for the view.
#[derive(Debug, PartialEq, Eq)]
pub enum ListAction {
    /// Print the page, then report `Rendered`.
    Show(String),
    /// Sleep for so many milliseconds, then report `Woke`.
    Sleep(u64),
    /// Clear the screen and send the request of the view again, then
    /// report `Fetched`.
    ClearAndFetch,
    /// The command is over.
    Stop,
    /// The command failed.
    Abort(Failure),
    /// The event does not belong to where the view stands; nothing is to
    /// be done for it.
    Ignore,
}

/// What the program is to do next, with texts in place of strings.
pub enum ListActionView {
    Show(Seq<char>),
    Sleep(u64),
    ClearAndFetch,
    Stop,
    Abort((ErrorKind, Seq<char>)),
    Ignore,
}

impl View for ListAction {
    type V = ListActionView;

    open spec fn view(&self) -> ListActionView {
        match self {
            ListAction::Show(page) => ListActionView::Show(page@),
            ListAction::Sleep(ms) => ListActionView::Sleep(*ms),
            ListAction::ClearAndFetch => ListActionView::ClearAndFetch,
            ListAction::Stop => ListActionView::Stop,
            ListAction::Abort(f) => ListActionView::Abort(f@),
            ListAction::Ignore => ListActionView::Ignore,
        }
    }
}

/// The view that lists the torrents, once or again and again. The
/// request, the order and the interval stay as they were when the view
/// was made.
#[derive(Debug, PartialEq, Eq)]
pub struct ListView {
    pub state: ListState,
    /// The request for the list: the same one for every fetch.
    pub request: Request,
    pub sort_by: TorrentSortingOptions,
    pub reverse: bool,
    /// The time between two fetches in milliseconds; `None` where the list
    /// is fetched once.
    pub interval: Option<u64>,
    /// How often the list was fetched again.
    pub refresh_counter: u64,
}

/// The view that lists the torrents, with texts in place of strings.
pub struct ListModel {
    pub state: ListState,
    pub request: RequestView,
    pub sort_by: TorrentSortingOptions,
    pub reverse: bool,
    pub interval: Option<u64>,
    pub refresh_counter: u64,
}

impl View for ListView {
    type V = ListModel;

    open spec fn view(&self) -> ListModel {
        ListModel {
            state: self.state,
            request: self.request@,
            sort_by: self.sort_by,
            reverse: self.reverse,
            interval: self.interval,
            refresh_counter: self.refresh_counter,
        }
    }
}

/// The view as it starts: the request for the list is on its way and no
/// fetch is counted. Where the request cannot be made there is no view.
pub open spec fn list_start(
    info: SessionView,
    sort_by: TorrentSortingOptions,
    reverse: bool,
    limit: Option<u32>,
    interval: Option<u64>,
) -> Result<ListModel, (ErrorKind, Seq<char>)> {
    match list_call(info, sort_by, reverse, limit) {
        Ok(request) => Ok(
            ListModel {
                state: ListState::Fetch,
                request,
                sort_by,
                reverse,
                interval,
                refresh_counter: 0,
            },
        ),
        Err(e) => Err(e),
    }
}

/// What `list_torrents` hands back, with texts in place of strings.
pub open spec fn started(r: Result<ListView, Failure>) -> Result<ListModel, (ErrorKind, Seq<char>)> {
    match r {
        Ok(view) => Ok(view@),
        Err(f) => Err(f@),
    }
}

/// The counter after one more fetch: it stops at the largest number.
pub open spec fn counted_up(counter: u64) -> u64 {
    if counter < u64::MAX {
        (counter + 1) as u64
    } else {
        counter
    }
}

impl ListView {
    /// What an answer to the request leads to: a page to show, or the
    /// failure of the command.
    pub open spec fn fetched(self, reply: Reply) -> (ListState, ListActionView) {
        match judged(reply) {
            Err(e) => (ListState::Fatal, ListActionView::Abort(e)),
            Ok(Body::Torrents(ts)) => if all_dated(ts@) {
                (
                    ListState::Render,
                    ListActionView::Show(
                        list_page(
                            ts@,
                            self.sort_by,
                            self.reverse,
                            self.interval,
                            self.refresh_counter,
                        ),
                    ),
                )
            } else {
                (ListState::Fatal, ListActionView::Abort((ErrorKind::Decode, bad_time_message())))
            },
            Ok(_) => (
                ListState::Fatal,
                ListActionView::Abort((ErrorKind::Decode, unreadable_message())),
            ),
        }
    }

    /// Where the view stands after an event, how often the list was
    /// fetched again by then, and what is to be done next.
    ///
    /// While the answer is awaited, the answer leads to a page or to the
    /// failure of the command. After the page was shown the command is
    /// over where there is no interval; else the counter goes up and the
    /// program sleeps. After the sleep the list is fetched again. Every
    /// other event is ignored.
    pub open spec fn next(self, event: ListEvent) -> (ListState, u64, ListActionView) {
        match (self.state, event) {
            (ListState::Fetch, ListEvent::Fetched(reply)) => (
                self.fetched(reply).0,
                self.refresh_counter,
                self.fetched(reply).1,
            ),
            (ListState::Render, ListEvent::Rendered) => match self.interval {
                Some(ms) => (
                    ListState::Sleep,
                    counted_up(self.refresh_counter),
                    ListActionView::Sleep(ms),
                ),
                None => (ListState::Done, self.refresh_counter, ListActionView::Stop),
            },
            (ListState::Sleep, ListEvent::Woke) => (
                ListState::Fetch,
                self.refresh_counter,
                ListActionView::ClearAndFetch,
            ),
            _ => (self.state, self.refresh_counter, ListActionView::Ignore),
        }
    }

    /// Takes the view one step further.
    pub fn step(&mut self, event: ListEvent) -> (action: ListAction)
        ensures
            (final(self).state, final(self).refresh_counter, action@) == old(self).next(event),
            final(self).request == old(self).request,
            final(self).sort_by == old(self).sort_by,
            final(self).reverse == old(self).reverse,
            final(self).interval == old(self).interval,
    {
        match event {
            ListEvent::Fetched(reply) => {
                if self.state != ListState::Fetch {
                    return ListAction::Ignore;
                }
                let ts = match check_reply(reply) {
                    Err(f) => {
                        self.state = ListState::Fatal;
                        return ListAction::Abort(f);
                    },
                    Ok(Body::Torrents(ts)) => ts,
                    Ok(_) => {
                        self.state = ListState::Fatal;
                        return ListAction::Abort(
                            failure(
                                ErrorKind::Decode,
                                "The answer of the service could not be read.",
                            ),
                        );
                    },
                };
                match render_torrents(&ts) {
                    Some(blocks) => {
                        let mut page = String::from_str("\n\n");
                        page.append(blocks.as_str());
                        let footer = render_list_footer(
                            ts.len(),
                            self.sort_by,
                            self.reverse,
                            self.interval,
                            self.refresh_counter,
                        );
                        page.append(footer.as_str());
                        self.state = ListState::Render;
                        ListAction::Show(page)
                    },
                    None => {
                        self.state = ListState::Fatal;
                        ListAction::Abort(
                            failure(
                                ErrorKind::Decode,
                                "The answer of the service holds a time that is out of range.",
                            ),
                        )
                    },
                }
            },
            ListEvent::Rendered => {
                if self.state != ListState::Render {
                    return ListAction::Ignore;
                }
                match self.interval {
                    Some(ms) => {
                        if self.refresh_counter < u64::MAX {
                            self.refresh_counter = self.refresh_counter + 1;
                        }
                        self.state = ListState::Sleep;
                        ListAction::Sleep(ms)
                    },
                    None => {
                        self.state = ListState::Done;
                        ListAction::Stop
                    },
                }
            },
            ListEvent::Woke => {
                if self.state != ListState::Sleep {
                    return ListAction::Ignore;
                }
                self.state = ListState::Fetch;
                ListAction::ClearAndFetch
            },
        }
    }
}

/// A view with an interval never comes to an end by itself: whatever
/// happens, it does not get to `Done`, unless it was put there.
pub proof fn lemma_refreshing_view_goes_on(view: ListView, event: ListEvent)
    requires
        view.interval is Some,
        view.state != ListState::Done,
    ensures
        view.next(event).0 != ListState::Done,
{
}

/// A view without an interval is over as soon as its one page was shown,
/// and the list was never fetched again by then.
pub proof fn lemma_single_view_ends(view: ListView)
    requires
        view.interval is None,
        view.state == ListState::Render,
    ensures
        view.next(ListEvent::Rendered) == (
            ListState::Done,
            view.refresh_counter,
            ListActionView::Stop,
        ),
{
}

/// Only the sleep after a page counts a fetch: every other step leaves
/// the counter as it is, and that one takes it up by one.
pub proof fn lemma_counter_follows_the_sleeps(view: ListView, event: ListEvent)
    ensures
        view.next(event).2 is Sleep ==> view.next(event).1 == counted_up(view.refresh_counter),
        !(view.next(event).2 is Sleep) ==> view.next(event).1 == view.refresh_counter,
        view.next(event).2 is Sleep <==> view.state == ListState::Render && event is Rendered
            && view.interval is Some,
{
}

/// Makes the view that lists the torrents. It starts with the request for
/// the list on its way and with no fetch counted.
pub fn list_torrents(
    info: &RequestInfo,
    sort_by: TorrentSortingOptions,
    reverse: bool,
    limit: Option<u32>,
    interval: Option<u64>,
) -> (r: Result<ListView, Failure>)
    ensures
        started(r) == list_start(info@, sort_by, reverse, limit, interval),
{
    let mut fields = one_field("sort", String::from_str(sort_by.name()));
    if reverse {
        push_field(&mut fields, "reverse", String::from_str("true"));
    }
    match limit {
        Some(n) => {
            push_field(&mut fields, "limit", decimal_text(n as u64));
        },
        None => {},
    }
    assert(pairs_view(fields@) =~= list_fields(sort_by, reverse, limit));
    match make_session_call(
        info,
        Method::Get,
        "api/v2/torrents/info",
        Encoding::Query,
        fields,
        Expect::Torrents,
    ) {
        Ok(request) => Ok(
            ListView {
                state: ListState::Fetch,
                request,
                sort_by,
                reverse,
                interval,
                refresh_counter: 0,
            },
        ),
        Err(f) => Err(f),
    }
}

/// The request for the files of a torrent.
pub open spec fn content_call(info: SessionView, hash: Seq<char>) -> Result<
    RequestView,
    (ErrorKind, Seq<char>),
> {
    session_call(
        info,
        Method::Get,
        "api/v2/torrents/files"@,
        Encoding::Query,
        seq![("hash"@, hash)],
        Expect::Files,
    )
}

/// Makes the request for the files of a torrent.
pub fn content_torrent(info: &RequestInfo, hash: String) -> (r: Result<Request, Failure>)
    ensures
        built(r) == content_call(info@, hash@),
{
    make_session_call(
        info,
        Method::Get,
        "api/v2/torrents/files",
        Encoding::Query,
        one_field("hash", hash),
        Expect::Files,
    )
}

/// What is printed for one file of a torrent, given its size as it is to
/// be shown.
pub open spec fn file_block(f: TorrentFile, size: Seq<char>) -> Seq<char> {
    "\n\n   | "@ + f.name@ + "\n   |\n   |  > Progress: "@ + percent(f.progress as nat) + "% "@
        + progress_bar(filled_cells(f.progress as nat)) + "\n   |  > Size: "@ + size + "\n"@
}

/// Writes what is printed for one file of a torrent.
pub fn render_file(f: &TorrentFile, size: &str) -> (r: String)
    ensures
        r@ == file_block(*f, size@),
{
    let mut r = String::from_str("\n\n   | ");
    r.append(f.name.as_str());
    r.append("\n   |\n   |  > Progress: ");
    let done = percent_text(f.progress);
    r.append(done.as_str());
    r.append("% ");
    let bar = progress_render(f.progress);
    r.append(bar.as_str());
    r.append("\n   |  > Size: ");
    r.append(size);
    r.append("\n");
    r
}

/// What is printed for the files, one after the other.
pub open spec fn files_text(fs: Seq<TorrentFile>) -> Seq<char>
    decreases fs.len(),
{
    if fs.len() == 0 {
        Seq::empty()
    } else {
        files_text(fs.drop_last()) + file_block(fs.last(), decimal_size_text(fs.last().size))
    }
}

/// What is printed for the files of a torrent: the files, and below them
/// how many there are.
pub open spec fn content_page(fs: Seq<TorrentFile>) -> Seq<char> {
    files_text(fs) + "\n\nTorrent contains "@ + decimal(fs.len()) + " files.\n"@
}

/// Writes what is printed for the files of a torrent.
pub fn render_content(fs: &Vec<TorrentFile>) -> (r: String)
    ensures
        r@ == content_page(fs@),
{
    let mut r = String::new();
    let mut i: usize = 0;
    while i < fs.len()
        invariant
            i <= fs@.len(),
            r@ == files_text(fs@.take(i as int)),
        decreases fs@.len() - i,
    {
        let size = human_size(fs[i].size);
        let block = render_file(&fs[i], size.as_str());
        r.append(block.as_str());
        proof {
            let grown = fs@.take(i + 1);
            assert(grown.drop_last() =~= fs@.take(i as int));
            assert(grown.last() == fs@[i as int]);
        }
        i += 1;
    }
    proof {
        assert(fs@.take(fs@.len() as int) =~= fs@);
    }
    r.append("\n\nTorrent contains ");
    let number = decimal_text(fs.len() as u64);
    r.append(number.as_str());
    r.append(" files.\n");
    r
}

/// The line that tells the user that the files of a torrent could not be
/// read from the answer.
pub open spec fn content_failed_message() -> Seq<char> {
    "Request failed, make sure the hash is valid"@
}

/// What the answer to the request for the files of a torrent comes to:
/// the page of the files, or the failure that it is reported as.
pub open spec fn content_outcome(body: Body) -> Result<Seq<char>, (ErrorKind, Seq<char>)> {
    match body {
        Body::Files(fs) => Ok(content_page(fs@)),
        _ => Err((ErrorKind::Decode, content_failed_message())),
    }
}

/// What is printed for the answer to the request for the files of a
/// torrent. A body that does not hold a list of files is a failure.
pub fn content_report(body: Body) -> (r: Result<String, Failure>)
    ensures
        match content_outcome(body) {
            Ok(page) => r matches Ok(s) && s@ == page,
            Err(e) => r matches Err(f) && f@ == e,
        },
{
    match body {
        Body::Files(fs) => Ok(render_content(&fs)),
        _ => Err(failure(ErrorKind::Decode, "Request failed, make sure the hash is valid")),
    }
}

/// Where a torrent that is added comes from.
#[derive(Debug, Clone, Copy, PartialEq, Eq, Structural)]
pub enum AddSource {
    /// From a url that the service fetches.
    Url,
    /// From a file that is sent along.
    File,
}

/// The request that adds a torrent. What was given is taken as a url
/// where it reads as one, and the url is sent in its normal form; else it
/// is taken as the path of a file that is sent along.
pub open spec fn add_call(info: SessionView, url_or_path: Seq<char>, pause: bool) -> Result<
    RequestView,
    (ErrorKind, Seq<char>),
> {
    match url_parsed(url_or_path) {
        Some(url) => session_call(
            info,
            Method::Post,
            "api/v2/torrents/add"@,
            Encoding::Multipart,
            seq![("urls"@, url), ("paused"@, bool_word(pause))],
            Expect::Text,
        ),
        None => call(
            info.url,
            Some(info.cookie),
            Method::Post,
            "api/v2/torrents/add"@,
            Encoding::Multipart,
            seq![("paused"@, bool_word(pause))],
            Some(("torrents"@, url_or_path)),
            Expect::Text,
        ),
    }
}

/// Makes the request that adds a torrent, and says where the torrent
/// comes from.
pub fn add_torrent(info: &RequestInfo, url_or_path: String, pause: bool) -> (r: Result<
    (AddSource, Request),
    Failure,
>)
    ensures
        match add_call(info@, url_or_path@, pause) {
            Ok(request) => r matches Ok(made) && made.1@ == request && (made.0 == AddSource::Url
                <==> url_parsed(url_or_path@) is Some),
            Err(e) => r matches Err(f) && f@ == e,
        },
{
    match parse_url(url_or_path.as_str()) {
        Some(url) => {
            let mut fields = one_field("urls", url);
            push_field(&mut fields, "paused", bool_text(pause));
            assert(pairs_view(fields@) =~= seq![("urls"@, url@), ("paused"@, bool_word(pause))]);
            match make_session_call(
                info,
                Method::Post,
                "api/v2/torrents/add",
                Encoding::Multipart,
                fields,
                Expect::Text,
            ) {
                Ok(request) => Ok((AddSource::Url, request)),
                Err(f) => Err(f),
            }
        },
        None => {
            match make_call(
                info.url.as_str(),
                Some(info.cookie.clone()),
                Method::Post,
                "api/v2/torrents/add",
                Encoding::Multipart,
                one_field("paused", bool_text(pause)),
                Some((String::from_str("torrents"), url_or_path)),
                Expect::Text,
            ) {
                Ok(request) => Ok((AddSource::File, request)),
                Err(f) => Err(f),
            }
        },
    }
}

/// What the answer to the request that adds a torrent comes to: the
/// service says `Ok.` where it took the torrent, and every other answer is
/// a failure.
pub open spec fn add_outcome(source: AddSource, body: Body) -> Result<
    Seq<char>,
    (ErrorKind, Seq<char>),
> {
    let taken = body matches Body::Text(text) && text@ == "Ok."@;
    match source {
        AddSource::Url => if taken {
            Ok("Added url.\n"@)
        } else {
            Err((ErrorKind::Decode, "Adding url failed."@))
        },
        AddSource::File => if taken {
            Ok("Added torrent file.\n"@)
        } else {
            Err((ErrorKind::Decode, "Adding torrent file failed."@))
        },
    }
}

/// What is printed for the answer to the request that adds a torrent.
pub fn add_report(source: AddSource, body: Body) -> (r: Result<String, Failure>)
    ensures
        match add_outcome(source, body) {
            Ok(line) => r matches Ok(s) && s@ == line,
            Err(e) => r matches Err(f) && f@ == e,
        },
{
    let taken = match &body {
        Body::Text(text) => same_text(text.as_str(), "Ok."),
        _ => false,
    };
    match source {
        AddSource::Url => if taken {
            Ok(String::from_str("Added url.\n"))
        } else {
            Err(failure(ErrorKind::Decode, "Adding url failed."))
        },
        AddSource::File => if taken {
            Ok(String::from_str("Added torrent file.\n"))
        } else {
            Err(failure(ErrorKind::Decode, "Adding torrent file failed."))
        },
    }
}

/// The line that tells the user that nothing was given to delete.
pub open spec fn no_hash_message() -> Seq<char> {
    "At least one hash must be provided!"@
}

/// What the user is asked before torrents are deleted.
pub open spec fn delete_question(count: nat, delete_files: bool) -> Seq<char> {
    "You are about to delete "@ + decimal(count) + " torrent(s)"@ + (if delete_files {
        " AND THEIR FILES ON DISK"@
    } else {
        Seq::empty()
    }) + ". Are you sure?"@
}

/// The request that deletes torrents. Without a hash there is none.
pub open spec fn delete_call(info: SessionView, hashes: Seq<String>, delete_files: bool) -> Result<
    RequestView,
    (ErrorKind, Seq<char>),
> {
    if hashes.len() == 0 {
        Err((ErrorKind::InvalidInput, no_hash_message()))
    } else {
        session_call(
            info,
            Method::Post,
            "api/v2/torrents/delete"@,
            Encoding::Form,
            seq![("deleteFiles"@, bool_word(delete_files)), ("hashes"@, joined(hashes, "|"@))],
            Expect::Nothing,
        )
    }
}

/// Makes the request that deletes torrents, and the line that asks the
/// user to confirm it; the answer that an empty line stands for is no.
/// Without a hash the command fails, and nothing is to be sent.
pub fn delete_torrents(info: &RequestInfo, hashes: &Vec<String>, delete_files: bool) -> (r: Result<
    (String, Request),
    Failure,
>)
    ensures
        match delete_call(info@, hashes@, delete_files) {
            Ok(request) => r matches Ok(made) && made.1@ == request && made.0@
                == confirm_prompt_text(
                delete_question(hashes@.len(), delete_files),
                DefaultChoice::No,
            ),
            Err(e) => r matches Err(f) && f@ == e,
        },
{
    if hashes.len() == 0 {
        return Err(failure(ErrorKind::InvalidInput, "At least one hash must be provided!"));
    }
    let mut fields = one_field("deleteFiles", bool_text(delete_files));
    push_field(&mut fields, "hashes", join(hashes, "|"));
    assert(pairs_view(fields@) =~= seq![
        ("deleteFiles"@, bool_word(delete_files)),
        ("hashes"@, joined(hashes@, "|"@)),
    ]);
    let request = match make_session_call(
        info,
        Method::Post,
        "api/v2/torrents/delete",
        Encoding::Form,
        fields,
        Expect::Nothing,
    ) {
        Ok(request) => request,
        Err(f) => {
            return Err(f);
        },
    };
    let mut question = String::from_str("You are about to delete ");
    let number = decimal_text(hashes.len() as u64);
    question.append(number.as_str());
    question.append(" torrent(s)");
    if delete_files {
        question.append(" AND THEIR FILES ON DISK");
    } else {
        assert(question@ + Seq::<char>::empty() =~= question@);
    }
    question.append(". Are you sure?");
    Ok((confirm_prompt(question.as_str(), DefaultChoice::No), request))
}

/// What is printed when the request that deletes torrents was sent.
pub open spec fn delete_line(count: nat) -> Seq<char> {
    "Sent request to delete "@ + decimal(count) + " torrent(s).\n"@
}

/// Writes what is printed when the request that deletes torrents was
/// sent.
pub fn delete_report(count: usize) -> (r: String)
    ensures
        r@ == delete_line(count as nat),
{
    let mut r = String::from_str("Sent request to delete ");
    let number = decimal_text(count as u64);
    r.append(number.as_str());
    r.append(" torrent(s).\n");
    r
}

/// The request of a command on one torrent: the hash goes as a form to
/// the path of the command.
pub open spec fn hash_call(info: SessionView, path: Seq<char>, hash: Seq<char>) -> Result<
    RequestView,
    (ErrorKind, Seq<char>),
> {
    session_call(info, Method::Post, path, Encoding::Form, seq![("hashes"@, hash)], Expect::Nothing)
}

fn make_hash_call(info: &RequestInfo, path: &str, hash: String) -> (r: Result<Request, Failure>)
    ensures
        built(r) == hash_call(info@, path@, hash@),
{
    make_session_call(
        info,
        Method::Post,
        path,
        Encoding::Form,
        one_field("hashes", hash),
        Expect::Nothing,
    )
}

/// What is printed when the request of a command on one torrent was
/// sent: `what` says what the torrent is asked to do.
pub open spec fn sent_line(what: Seq<char>) -> Seq<char> {
    "Sent request to "@ + what + " torrent.\n"@
}

/// Writes what is printed when the request of a command on one torrent
/// was sent.
pub fn sent_report(what: &str) -> (r: String)
    ensures
        r@ == sent_line(what@),
{
    let mut r = String::from_str("Sent request to ");
    r.append(what);
    r.append(" torrent.\n");
    r
}

/// Makes the request that pauses a torrent.
pub fn pause_torrent(info: &RequestInfo, hash: String) -> (r: Result<Request, Failure>)
    ensures
        built(r) == hash_call(info@, "api/v2/torrents/pause"@, hash@),
{
    make_hash_call(info, "api/v2/torrents/pause", hash)
}

/// Makes the request that resumes a torrent.
pub fn resume_torrent(info: &RequestInfo, hash: String) -> (r: Result<Request, Failure>)
    ensures
        built(r) == hash_call(info@, "api/v2/torrents/resume"@, hash@),
{
    make_hash_call(info, "api/v2/torrents/resume", hash)
}

/// Makes the request that has a torrent checked again.
pub fn recheck(info: &RequestInfo, hash: String) -> (r: Result<Request, Failure>)
    ensures
        built(r) == hash_call(info@, "api/v2/torrents/recheck"@, hash@),
{
    make_hash_call(info, "api/v2/torrents/recheck", hash)
}

/// Makes the request that has a torrent announced again.
pub fn reannounce(info: &RequestInfo, hash: String) -> (r: Result<Request, Failure>)
    ensures
        built(r) == hash_call(info@, "api/v2/torrents/reannounce"@, hash@),
{
    make_hash_call(info, "api/v2/torrents/reannounce", hash)
}

} // verus!
