//! The store of sessions: which cookie belongs to which url, and which url
//! is the default.

use crate::error::{failure, ErrorKind, Failure};
use crate::text::{
    lemma_occurs_in_middle, lemma_occurs_in_self, lemma_text_lt_total, lemma_text_lt_transitive,
    occurs_in, option_view, pairs_view, precedes, same_text, text_lt, Pairs,
};
use vstd::prelude::*;
use vstd::string::*;

verus! {

/// What a store holds: a cookie for each stored url, and the url that is
/// the default, if there is one.
#[verifier::ext_equal]
pub struct StoreView {
    pub sessions: Map<Seq<char>, Seq<char>>,
    pub active: Option<Seq<char>>,
}

impl StoreView {
    /// The store without a session.
    pub open spec fn empty() -> StoreView {
        StoreView { sessions: Map::empty(), active: None }
    }

    /// Whether a cookie is stored for the url.
    pub open spec fn has(self, url: Seq<char>) -> bool {
        self.sessions.dom().contains(url)
    }

    /// A default, where there is one, is a stored url.
    pub open spec fn wf(self) -> bool {
        self.active matches Some(url) ==> self.has(url)
    }

    /// The store after a cookie was stored for a url: the cookie replaces
    /// what was stored for that url, and the url becomes the default where
    /// there was none.
    pub open spec fn add(self, url: Seq<char>, cookie: Seq<char>) -> StoreView {
        StoreView {
            sessions: self.sessions.insert(url, cookie),
            active: if self.active is None {
                Some(url)
            } else {
                self.active
            },
        }
    }

    /// The store after a stored url was made the default.
    pub open spec fn activate(self, url: Seq<char>) -> StoreView {
        StoreView { sessions: self.sessions, active: Some(url) }
    }

    /// The store after a url was removed: it is the default no longer.
    pub open spec fn remove(self, url: Seq<char>) -> StoreView {
        StoreView {
            sessions: self.sessions.remove(url),
            active: if self.active == Some(url) {
                None
            } else {
                self.active
            },
        }
    }

    /// The session that commands use: the default url with its cookie, or
    /// `NotConfigured` where there is no default.
    pub open spec fn resolve_active(self) -> Result<(Seq<char>, Seq<char>), ErrorKind> {
        match self.active {
            Some(url) => if self.has(url) {
                Ok((url, self.sessions[url]))
            } else {
                Err(ErrorKind::NotConfigured)
            },
            None => Err(ErrorKind::NotConfigured),
        }
    }

    /// Whether `list` is the list of the sessions in the order of their
    /// urls: each stored url once, with its cookie, and nothing else.
    pub open spec fn listed_by(self, list: Pairs) -> bool {
        &&& ordered(list)
        &&& forall|i: int| 0 <= i < list.len() ==> self.has(#[trigger] list[i].0)
        &&& forall|i: int| 0 <= i < list.len() ==> self.sessions[#[trigger] list[i].0] == list[i].1
        &&& forall|url: Seq<char>| self.has(url) ==> listed(list, url)
    }

    /// The list of the sessions in the order of their urls.
    pub open spec fn listing(self) -> Pairs {
        choose|list: Pairs| self.listed_by(list)
    }

    /// The store that a saved list of sessions and a saved default give: a
    /// later entry of the list replaces an earlier one for the same url,
    /// and a default that is not in the list is refused.
    pub open spec fn loaded(cookies: Pairs, default: Option<Seq<char>>) -> Result<
        StoreView,
        ErrorKind,
    > {
        let view = StoreView { sessions: sessions_of(cookies), active: default };
        if view.wf() {
            Ok(view)
        } else {
            Err(ErrorKind::Decode)
        }
    }
}

/// Each url of the list comes before every later one.
pub open spec fn ordered(list: Pairs) -> bool {
    forall|i: int, j: int|
        0 <= i < j < list.len() ==> text_lt(#[trigger] list[i].0, #[trigger] list[j].0)
}

/// Whether the url is one of the list.
pub open spec fn listed(list: Pairs, url: Seq<char>) -> bool {
    exists|i: int| 0 <= i < list.len() && #[trigger] list[i].0 == url
}

/// The sessions that a list gives when its entries are stored one after
/// the other.
pub open spec fn sessions_of(list: Pairs) -> Map<Seq<char>, Seq<char>>
    decreases list.len(),
{
    if list.len() == 0 {
        Map::empty()
    } else {
        sessions_of(list.drop_last()).insert(list.last().0, list.last().1)
    }
}

/// The position of a url in a list that holds it.
spec fn position(list: Pairs, url: Seq<char>) -> int {
    choose|i: int| 0 <= i < list.len() && #[trigger] list[i].0 == url
}

/// The sessions of an ordered list, each url with the cookie beside it.
spec fn sessions_at(list: Pairs) -> Map<Seq<char>, Seq<char>> {
    Map::new(|url: Seq<char>| listed(list, url), |url: Seq<char>| list[position(list, url)].1)
}

proof fn lemma_position(list: Pairs, i: int)
    requires
        ordered(list),
        0 <= i < list.len(),
    ensures
        listed(list, list[i].0),
        position(list, list[i].0) == i,
        sessions_at(list)[list[i].0] == list[i].1,
{
    let url = list[i].0;
    let j = position(list, url);
    lemma_text_lt_total(url, url);
    if j < i {
        assert(text_lt(list[j].0, list[i].0));
    } else if i < j {
        assert(text_lt(list[i].0, list[j].0));
    }
}

proof fn lemma_sessions_at_lists(list: Pairs)
    requires
        ordered(list),
    ensures
        (StoreView { sessions: sessions_at(list), active: None }).listed_by(list),
{
    let view = StoreView { sessions: sessions_at(list), active: None };
    assert forall|i: int| 0 <= i < list.len() implies view.has(#[trigger] list[i].0)
        && view.sessions[list[i].0] == list[i].1 by {
        lemma_position(list, i);
    }
}

proof fn lemma_inserted(list: Pairs, i: int, url: Seq<char>, cookie: Seq<char>)
    requires
        ordered(list),
        0 <= i <= list.len(),
        forall|j: int| 0 <= j < i ==> text_lt(#[trigger] list[j].0, url),
        forall|j: int| i <= j < list.len() ==> text_lt(url, #[trigger] list[j].0),
    ensures
        ordered(list.insert(i, (url, cookie))),
        sessions_at(list.insert(i, (url, cookie))) == sessions_at(list).insert(url, cookie),
{
    let grown = list.insert(i, (url, cookie));
    assert forall|a: int, b: int| 0 <= a < b < grown.len() implies text_lt(
        #[trigger] grown[a].0,
        #[trigger] grown[b].0,
    ) by {
        if a < i && b > i {
            assert(text_lt(list[a].0, url));
            assert(text_lt(url, list[b - 1].0));
            lemma_text_lt_transitive(list[a].0, url, list[b - 1].0);
        } else if a < i && b < i {
            assert(text_lt(list[a].0, list[b].0));
        } else if a > i {
            assert(text_lt(list[a - 1].0, list[b - 1].0));
        }
    }
    let left = sessions_at(grown);
    let right = sessions_at(list).insert(url, cookie);
    assert forall|k: Seq<char>| left.dom().contains(k) <==> right.dom().contains(k) by {
        if listed(grown, k) {
            let p = position(grown, k);
            if p < i {
                assert(list[p].0 == k);
            } else if p > i {
                assert(list[p - 1].0 == k);
            }
        }
        if listed(list, k) {
            let p = position(list, k);
            if p < i {
                assert(grown[p].0 == k);
            } else {
                assert(grown[p + 1].0 == k);
            }
        }
        if k == url {
            assert(grown[i].0 == k);
        }
    }
    assert forall|k: Seq<char>| left.dom().contains(k) implies left[k] == right[k] by {
        let p = position(grown, k);
        lemma_position(grown, p);
        if p < i {
            lemma_position(list, p);
            lemma_text_lt_total(list[p].0, url);
        } else if p > i {
            lemma_position(list, p - 1);
            lemma_text_lt_total(url, list[p - 1].0);
        }
    }
    assert(left =~= right);
}

proof fn lemma_updated(list: Pairs, i: int, cookie: Seq<char>)
    requires
        ordered(list),
        0 <= i < list.len(),
    ensures
        ordered(list.update(i, (list[i].0, cookie))),
        sessions_at(list.update(i, (list[i].0, cookie))) == sessions_at(list).insert(
            list[i].0,
            cookie,
        ),
{
    let url = list[i].0;
    let changed = list.update(i, (url, cookie));
    assert forall|a: int, b: int| 0 <= a < b < changed.len() implies text_lt(
        #[trigger] changed[a].0,
        #[trigger] changed[b].0,
    ) by {
        assert(text_lt(list[a].0, list[b].0));
    }
    let left = sessions_at(changed);
    let right = sessions_at(list).insert(url, cookie);
    assert forall|k: Seq<char>| left.dom().contains(k) <==> right.dom().contains(k) by {
        if listed(changed, k) {
            let p = position(changed, k);
            assert(list[p].0 == k);
        }
        if listed(list, k) {
            let p = position(list, k);
            assert(changed[p].0 == k);
        }
        if k == url {
            assert(changed[i].0 == k);
        }
    }
    assert forall|k: Seq<char>| left.dom().contains(k) implies left[k] == right[k] by {
        let p = position(changed, k);
        lemma_position(changed, p);
        lemma_position(list, p);
        lemma_position(list, i);
    }
    assert(left =~= right);
}

proof fn lemma_removed(list: Pairs, i: int)
    requires
        ordered(list),
        0 <= i < list.len(),
    ensures
        ordered(list.remove(i)),
        sessions_at(list.remove(i)) == sessions_at(list).remove(list[i].0),
{
    let url = list[i].0;
    let rest = list.remove(i);
    assert forall|a: int, b: int| 0 <= a < b < rest.len() implies text_lt(
        #[trigger] rest[a].0,
        #[trigger] rest[b].0,
    ) by {
        let a0 = if a < i {
            a
        } else {
            a + 1
        };
        let b0 = if b < i {
            b
        } else {
            b + 1
        };
        assert(text_lt(list[a0].0, list[b0].0));
    }
    let left = sessions_at(rest);
    let right = sessions_at(list).remove(url);
    assert forall|k: Seq<char>| left.dom().contains(k) <==> right.dom().contains(k) by {
        if listed(rest, k) {
            let p = position(rest, k);
            let p0 = if p < i {
                p
            } else {
                p + 1
            };
            assert(list[p0].0 == k);
            lemma_position(list, p0);
            lemma_position(list, i);
        }
        if listed(list, k) && k != url {
            let p = position(list, k);
            if p < i {
                assert(rest[p].0 == k);
            } else {
                assert(rest[p - 1].0 == k);
            }
        }
    }
    assert forall|k: Seq<char>| left.dom().contains(k) implies left[k] == right[k] by {
        let p = position(rest, k);
        lemma_position(rest, p);
        let p0 = if p < i {
            p
        } else {
            p + 1
        };
        lemma_position(list, p0);
    }
    assert(left =~= right);
}

proof fn lemma_listings_agree(v: StoreView, a: Pairs, b: Pairs, i: int)
    requires
        v.listed_by(a),
        v.listed_by(b),
        0 <= i < a.len(),
    ensures
        i < b.len(),
        forall|k: int| 0 <= k <= i ==> a[k] == b[k],
    decreases i,
{
    if i > 0 {
        lemma_listings_agree(v, a, b, i - 1);
    }
    let url = a[i].0;
    assert(v.has(url));
    assert(listed(b, url));
    let j = position(b, url);
    lemma_text_lt_total(url, url);
    if j < i {
        assert(a[j] == b[j]);
        assert(text_lt(a[j].0, a[i].0));
    }
    if j > i {
        let other = b[i].0;
        assert(v.has(other));
        assert(listed(a, other));
        let h = position(a, other);
        assert(text_lt(b[i].0, b[j].0));
        lemma_text_lt_total(other, url);
        if h < i {
            assert(a[h] == b[h]);
            assert(text_lt(b[h].0, b[i].0));
            lemma_text_lt_total(other, other);
        } else if h > i {
            assert(text_lt(a[i].0, a[h].0));
        }
    }
    assert(j == i);
    assert(a[i].1 == v.sessions[url]);
    assert(b[i].1 == v.sessions[url]);
}

/// A store has one listing: two lists of its sessions in the order of
/// their urls are the same list.
pub proof fn lemma_listing_unique(v: StoreView, a: Pairs, b: Pairs)
    requires
        v.listed_by(a),
        v.listed_by(b),
    ensures
        a == b,
{
    if a.len() > 0 {
        lemma_listings_agree(v, a, b, a.len() - 1);
    }
    if b.len() > 0 {
        lemma_listings_agree(v, b, a, b.len() - 1);
    }
    assert(a =~= b);
}

proof fn lemma_sessions_of_listing(list: Pairs)
    requires
        ordered(list),
    ensures
        sessions_of(list) == sessions_at(list),
    decreases list.len(),
{
    if list.len() == 0 {
        assert(sessions_of(list) =~= sessions_at(list));
    } else {
        let n = list.len() - 1;
        let front = list.drop_last();
        assert forall|a: int, b: int| 0 <= a < b < front.len() implies text_lt(
            #[trigger] front[a].0,
            #[trigger] front[b].0,
        ) by {
            assert(text_lt(list[a].0, list[b].0));
        }
        lemma_sessions_of_listing(front);
        assert forall|j: int| 0 <= j < n implies text_lt(#[trigger] front[j].0, list[n].0) by {
            assert(text_lt(list[j].0, list[n].0));
        }
        lemma_inserted(front, n, list[n].0, list[n].1);
        assert(front.insert(n, (list[n].0, list[n].1)) =~= list);
    }
}

/// Saving and loading give the store back: the listing of a store, loaded
/// together with its default, is that store, whether it holds no
/// session, one or many, and whether or not it has a default.
pub proof fn lemma_save_then_load(v: StoreView, list: Pairs)
    requires
        v.wf(),
        v.listed_by(list),
    ensures
        StoreView::loaded(list, v.active) == Ok::<StoreView, ErrorKind>(v),
{
    lemma_sessions_of_listing(list);
    lemma_sessions_at_lists(list);
    assert forall|url: Seq<char>| v.has(url) <==> sessions_at(list).dom().contains(url) by {
        if listed(list, url) {
            let p = position(list, url);
            assert(v.has(list[p].0));
        }
    }
    assert forall|url: Seq<char>| v.has(url) implies v.sessions[url] == sessions_at(list)[url] by {
        let p = position(list, url);
        lemma_position(list, p);
    }
    assert(v.sessions =~= sessions_at(list));
}

/// Making a url the default right after a cookie was stored for it gives a
/// store whose session is that url with that cookie.
pub proof fn lemma_add_then_activate_resolves(v: StoreView, url: Seq<char>, cookie: Seq<char>)
    ensures
        v.add(url, cookie).has(url),
        v.add(url, cookie).activate(url).resolve_active() == Ok::<
            (Seq<char>, Seq<char>),
            ErrorKind,
        >((url, cookie)),
{
}

/// Removing the url that is the default leaves a store without a
/// session to use.
pub proof fn lemma_remove_active_unconfigures(v: StoreView, url: Seq<char>)
    requires
        v.active == Some(url),
    ensures
        v.remove(url).resolve_active() == Err::<(Seq<char>, Seq<char>), ErrorKind>(
            ErrorKind::NotConfigured,
        ),
        v.wf() ==> v.remove(url).wf(),
{
}

/// The empty store has no session to use.
pub proof fn lemma_empty_is_unconfigured()
    ensures
        StoreView::empty().resolve_active() == Err::<(Seq<char>, Seq<char>), ErrorKind>(
            ErrorKind::NotConfigured,
        ),
        StoreView::empty().wf(),
{
}

/// The operations keep a store well formed.
pub proof fn lemma_operations_keep_wf(v: StoreView, url: Seq<char>, cookie: Seq<char>)
    requires
        v.wf(),
    ensures
        v.add(url, cookie).wf(),
        v.remove(url).wf(),
        v.has(url) ==> v.activate(url).wf(),
{
}

/// What stands in place of a cookie that is not shown.
pub open spec fn redacted() -> Seq<char> {
    "[REDACTED]"@
}

/// What a row shows of a cookie: the cookie itself where secrets are
/// shown, the placeholder otherwise.
pub open spec fn shown_cookie(cookie: Seq<char>, show_secrets: bool) -> Seq<char> {
    if show_secrets {
        cookie
    } else {
        redacted()
    }
}

/// The mark in front of a row: a star on the row of the default.
pub open spec fn mark(active: bool) -> Seq<char> {
    if active {
        "[*]\t"@
    } else {
        "[ ]\t"@
    }
}

/// One row of the list: the mark, the url and what is shown of the cookie.
pub open spec fn row_text(entry: (Seq<char>, Seq<char>), active: bool, show_secrets: bool) -> Seq<
    char,
> {
    mark(active) + entry.0 + ": "@ + shown_cookie(entry.1, show_secrets) + "\n"@
}

/// The rows of the list, one for each session.
pub open spec fn rows_text(list: Pairs, active: Option<Seq<char>>, show_secrets: bool) -> Seq<
    char,
>
    decreases list.len(),
{
    if list.len() == 0 {
        Seq::empty()
    } else {
        rows_text(list.drop_last(), active, show_secrets) + row_text(
            list.last(),
            active == Some(list.last().0),
            show_secrets,
        )
    }
}

/// What stands above the rows: the column titles, and before them a note
/// where the secrets are not shown.
pub open spec fn list_head(show_secrets: bool) -> Seq<char> {
    if show_secrets {
        "DEFAULT\tURL\tCOOKIE\n"@
    } else {
        "NOTE: secrets are redacted. To reveal, pass --show-secrets\n\nDEFAULT\tURL\tCOOKIE\n"@
    }
}

/// The list of the stored sessions as it is printed.
pub open spec fn list_text(list: Pairs, active: Option<Seq<char>>, show_secrets: bool) -> Seq<
    char,
> {
    if list.len() == 0 {
        "No stored cookies!\n"@
    } else {
        list_head(show_secrets) + rows_text(list, active, show_secrets)
    }
}

/// The same list with every cookie taken out.
pub open spec fn without_cookies(list: Pairs) -> Pairs {
    Seq::new(list.len(), |i: int| (list[i].0, Seq::<char>::empty()))
}

proof fn lemma_rows_without_cookies(list: Pairs, active: Option<Seq<char>>)
    ensures
        rows_text(list, active, false) == rows_text(without_cookies(list), active, false),
    decreases list.len(),
{
    if list.len() > 0 {
        lemma_rows_without_cookies(list.drop_last(), active);
        assert(without_cookies(list).drop_last() =~= without_cookies(list.drop_last()));
    }
}

/// With the secrets hidden the list does not depend on the cookies: it is
/// the list of the same urls without any cookie. So a cookie can be read
/// in it only where the urls, the marks and the fixed words spell it.
pub proof fn lemma_hidden_list_ignores_cookies(
    list: Pairs,
    active: Option<Seq<char>>,
    cookie: Seq<char>,
)
    ensures
        list_text(list, active, false) == list_text(without_cookies(list), active, false),
        !occurs_in(cookie, list_text(without_cookies(list), active, false)) ==> !occurs_in(
            cookie,
            list_text(list, active, false),
        ),
{
    lemma_rows_without_cookies(list, active);
}

proof fn lemma_rows_show_cookie(list: Pairs, active: Option<Seq<char>>, i: int)
    requires
        0 <= i < list.len(),
    ensures
        occurs_in(list[i].1, rows_text(list, active, true)),
    decreases list.len(),
{
    let front = rows_text(list.drop_last(), active, true);
    let last = list.last();
    let row = row_text(last, active == Some(last.0), true);
    if i == list.len() - 1 {
        lemma_occurs_in_self(last.1);
        lemma_occurs_in_middle(
            last.1,
            front + (mark(active == Some(last.0)) + last.0 + ": "@),
            last.1,
            "\n"@,
        );
        assert(front + (mark(active == Some(last.0)) + last.0 + ": "@) + last.1 + "\n"@ =~= front
            + row);
    } else {
        lemma_rows_show_cookie(list.drop_last(), active, i);
        lemma_occurs_in_middle(list[i].1, Seq::empty(), front, row);
        assert(Seq::<char>::empty() + front + row =~= front + row);
    }
}

/// With the secrets shown every stored cookie can be read in the list.
pub proof fn lemma_shown_list_holds_cookies(list: Pairs, active: Option<Seq<char>>, i: int)
    requires
        0 <= i < list.len(),
    ensures
        occurs_in(list[i].1, list_text(list, active, true)),
{
    lemma_rows_show_cookie(list, active, i);
    lemma_occurs_in_middle(
        list[i].1,
        list_head(true),
        rows_text(list, active, true),
        Seq::empty(),
    );
    assert(list_head(true) + rows_text(list, active, true) + Seq::<char>::empty() =~= list_text(
        list,
        active,
        true,
    ));
}

/// With the secrets shown the cookie of every stored url can be read in
/// the list of the store.
pub proof fn lemma_shown_list_holds_stored_cookie(v: StoreView, url: Seq<char>)
    requires
        v.listed_by(v.listing()),
        v.has(url),
    ensures
        occurs_in(v.sessions[url], list_text(v.listing(), v.active, true)),
{
    let list = v.listing();
    assert(listed(list, url));
    let i = choose|i: int| 0 <= i < list.len() && #[trigger] list[i].0 == url;
    lemma_shown_list_holds_cookies(list, v.active, i);
}

/// The session that a command uses: a url and the cookie stored for it.
#[derive(Debug, PartialEq, Eq)]
pub struct RequestInfo {
    pub url: String,
    pub cookie: String,
}

/// A session, with texts in place of strings.
pub struct SessionView {
    pub url: Seq<char>,
    pub cookie: Seq<char>,
}

impl View for RequestInfo {
    type V = SessionView;

    open spec fn view(&self) -> SessionView {
        SessionView { url: self.url@, cookie: self.cookie@ }
    }
}

/// What is written to the file of the store, and what is read from it:
/// the sessions as a list, and the default.
#[derive(Debug, PartialEq, Eq)]
pub struct SavedConfig {
    pub cookies: Vec<(String, String)>,
    pub default: Option<String>,
}

/// The line that tells the user that the file of the store names a
/// default for which it holds no cookie.
pub open spec fn stray_default_message() -> Seq<char> {
    "The default url of the configuration file has no cookie."@
}

/// The comment at the top of the file of the store.
pub open spec fn config_comment() -> Seq<char> {
    "#This is the configuration file for qbtrs, a cli qbittorrent client.\n#If manually modifying this file, make sure that the default value (if not null) always has a corresponding entry in the cookies list.\n\n"@
}

/// The text of the file of the store: the comment, then the sessions as
/// the file format writes them.
pub fn config_file_text(body: &str) -> (r: String)
    ensures
        r@ == config_comment() + body@,
{
    let mut r = String::from_str(
        "#This is the configuration file for qbtrs, a cli qbittorrent client.\n#If manually modifying this file, make sure that the default value (if not null) always has a corresponding entry in the cookies list.\n\n",
    );
    r.append(body);
    r
}

/// The store of sessions. The sessions are kept in the order of their
/// urls, each url once, and the default is one of them.
#[derive(Debug, PartialEq, Eq)]
pub struct Config {
    cookies: Vec<(String, String)>,
    default: Option<String>,
}

impl View for Config {
    type V = StoreView;

    closed spec fn view(&self) -> StoreView {
        StoreView {
            sessions: sessions_at(pairs_view(self.cookies@)),
            active: option_view(self.default),
        }
    }
}

impl Default for Config {
    /// The store without a session.
    fn default() -> (r: Config)
        ensures
            r@ == StoreView::empty(),
    {
        Config::new()
    }
}

impl Config {
    #[verifier::type_invariant]
    spec fn well_formed(self) -> bool {
        &&& ordered(pairs_view(self.cookies@))
        &&& self@.wf()
    }

    /// The store without a session.
    pub fn new() -> (r: Config)
        ensures
            r@ == StoreView::empty(),
    {
        let r = Config { cookies: Vec::new(), default: None };
        assert(r@.sessions =~= Map::empty());
        r
    }

    /// Where the url is in the list, or where it would have to be put,
    /// and whether it is there.
    fn find(&self, url: &str) -> (r: (usize, bool))
        ensures
            r.0 <= self.cookies@.len(),
            forall|j: int| 0 <= j < r.0 ==> text_lt(#[trigger] self.cookies@[j].0@, url@),
            r.1 ==> r.0 < self.cookies@.len() && self.cookies@[r.0 as int].0@ == url@,
            !r.1 ==> forall|j: int|
                r.0 <= j < self.cookies@.len() ==> text_lt(url@, #[trigger] self.cookies@[j].0@),
            r.1 == self@.has(url@),
    {
        proof {
            use_type_invariant(self);
        }
        let ghost list = pairs_view(self.cookies@);
        let mut i: usize = 0;
        let mut found = false;
        while i < self.cookies.len()
            invariant_except_break
                !found,
            invariant
                i <= self.cookies@.len(),
                list == pairs_view(self.cookies@),
                ordered(list),
                forall|j: int| 0 <= j < i ==> text_lt(#[trigger] self.cookies@[j].0@, url@),
            ensures
                found ==> i < self.cookies@.len() && self.cookies@[i as int].0@ == url@,
                !found ==> forall|j: int|
                    i <= j < self.cookies@.len() ==> text_lt(url@, #[trigger] self.cookies@[j].0@),
            decreases self.cookies@.len() - i,
        {
            let key = self.cookies[i].0.as_str();
            if precedes(key, url) {
                i += 1;
            } else {
                found = same_text(key, url);
                proof {
                    if !found {
                        lemma_text_lt_total(key@, url@);
                        assert forall|j: int| i <= j < self.cookies@.len() implies text_lt(
                            url@,
                            #[trigger] self.cookies@[j].0@,
                        ) by {
                            if j > i {
                                assert(text_lt(list[i as int].0, list[j].0));
                                lemma_text_lt_transitive(url@, key@, self.cookies@[j].0@);
                            }
                        }
                    }
                }
                break ;
            }
        }
        proof {
            if found {
                assert(list[i as int].0 == url@);
            } else if listed(list, url@) {
                let p = position(list, url@);
                assert(self.cookies@[p].0@ == url@);
                lemma_text_lt_total(url@, url@);
            }
        }
        (i, found)
    }

    /// Whether a cookie is stored for the url.
    pub fn contains_key(&self, url: &str) -> (r: bool)
        ensures
            r == self@.has(url@),
            self@.wf(),
    {
        proof {
            use_type_invariant(self);
        }
        self.find(url).1
    }

    /// Whether no session is stored.
    pub fn is_empty(&self) -> (r: bool)
        ensures
            r == (self@.sessions == Map::<Seq<char>, Seq<char>>::empty()),
            self@.wf(),
    {
        proof {
            use_type_invariant(self);
            let list = pairs_view(self.cookies@);
            if list.len() > 0 {
                assert(listed(list, list[0].0));
                assert(self@.has(list[0].0));
            } else {
                assert(self@.sessions =~= Map::<Seq<char>, Seq<char>>::empty());
            }
        }
        self.cookies.len() == 0
    }

    /// The url that is the default, if there is one.
    pub fn default_url(&self) -> (r: Option<&String>)
        ensures
            match r {
                Some(url) => self@.active == Some(url@),
                None => self@.active is None,
            },
            self@.wf(),
    {
        proof {
            use_type_invariant(self);
        }
        self.default.as_ref()
    }

    /// Stores a cookie for a url without touching the default.
    fn put(&mut self, url: String, cookie: String)
        ensures
            final(self)@.sessions == old(self)@.sessions.insert(url@, cookie@),
            final(self)@.active == old(self)@.active,
    {
        proof {
            use_type_invariant(&*self);
        }
        let (i, found) = self.find(url.as_str());
        let ghost before = pairs_view(self.cookies@);
        let mut taken = Config::new();
        core::mem::swap(self, &mut taken);
        let Config { mut cookies, default } = taken;
        if found {
            cookies.set(i, (url, cookie));
            proof {
                lemma_updated(before, i as int, cookie@);
                assert(pairs_view(cookies@) =~= before.update(i as int, (before[i as int].0, cookie@)));
            }
        } else {
            cookies.insert(i, (url, cookie));
            proof {
                assert forall|j: int| 0 <= j < i implies text_lt(#[trigger] before[j].0, url@) by {
                    assert(text_lt(old(self).cookies@[j].0@, url@));
                }
                assert forall|j: int| i <= j < before.len() implies text_lt(
                    url@,
                    #[trigger] before[j].0,
                ) by {
                    assert(text_lt(url@, old(self).cookies@[j].0@));
                }
                lemma_inserted(before, i as int, url@, cookie@);
                assert(pairs_view(cookies@) =~= before.insert(i as int, (url@, cookie@)));
            }
        }
        *self = Config { cookies, default };
    }

    /// Stores a cookie for a url. It replaces the cookie that was stored
    /// for that url, if any. Where the store has no default, the url
    /// becomes the default.
    pub fn add_url(&mut self, url: String, cookie: String)
        ensures
            final(self)@ == old(self)@.add(url@, cookie@),
            final(self)@.wf(),
    {
        let first = self.default.is_none();
        let key = url.clone();
        self.put(url, cookie);
        if first {
            proof {
                use_type_invariant(&*self);
            }
            let mut taken = Config::new();
            core::mem::swap(self, &mut taken);
            let Config { cookies, default } = taken;
            *self = Config { cookies, default: Some(key) };
        }
        proof {
            use_type_invariant(&*self);
        }
    }

    /// Makes a stored url the default. A url that is not stored is
    /// refused, and the store stays as it is.
    pub fn activate_url(&mut self, url: &str) -> (r: Result<(), ErrorKind>)
        ensures
            old(self)@.has(url@) ==> r is Ok && final(self)@ == old(self)@.activate(url@),
            !old(self)@.has(url@) ==> r == Err::<(), ErrorKind>(ErrorKind::UnknownEndpoint)
                && final(self)@ == old(self)@,
            final(self)@.wf(),
    {
        proof {
            use_type_invariant(&*self);
        }
        if self.contains_key(url) {
            let mut taken = Config::new();
            core::mem::swap(self, &mut taken);
            let Config { cookies, default } = taken;
            *self = Config { cookies, default: Some(String::from_str(url)) };
            Ok(())
        } else {
            Err(ErrorKind::UnknownEndpoint)
        }
    }

    /// Removes a url with its cookie and says whether it was stored. Where
    /// it was the default, the store has no default afterwards.
    pub fn remove_url(&mut self, url: &str) -> (r: bool)
        ensures
            r == old(self)@.has(url@),
            final(self)@ == old(self)@.remove(url@),
            final(self)@.wf(),
    {
        proof {
            use_type_invariant(&*self);
        }
        let (i, found) = self.find(url);
        let ghost before = pairs_view(self.cookies@);
        let mut taken = Config::new();
        core::mem::swap(self, &mut taken);
        let Config { mut cookies, default } = taken;
        let default = match default {
            Some(d) => if same_text(d.as_str(), url) {
                None
            } else {
                Some(d)
            },
            None => None,
        };
        if found {
            cookies.remove(i);
            proof {
                lemma_removed(before, i as int);
                assert(pairs_view(cookies@) =~= before.remove(i as int));
            }
        } else {
            assert(sessions_at(before).remove(url@) =~= sessions_at(before));
        }
        *self = Config { cookies, default };
        assert(self@.sessions =~= old(self)@.remove(url@).sessions);
        found
    }

    /// The session that commands use: the default url with its cookie. A
    /// store without a default has none, whatever else it holds, and says
    /// so with `NotConfigured`.
    pub fn get_request_info(&self) -> (r: Result<RequestInfo, ErrorKind>)
        ensures
            match self@.resolve_active() {
                Ok(session) => r matches Ok(info) && (info.url@, info.cookie@) == session,
                Err(kind) => r matches Err(k) && k == kind,
            },
    {
        proof {
            use_type_invariant(self);
        }
        match &self.default {
            Some(url) => {
                let (i, found) = self.find(url.as_str());
                proof {
                    lemma_position(pairs_view(self.cookies@), i as int);
                }
                Ok(RequestInfo { url: url.clone(), cookie: self.cookies[i].1.clone() })
            },
            None => Err(ErrorKind::NotConfigured),
        }
    }

    /// The list of the stored sessions as it is printed: a row for each
    /// session in the order of the urls, with a star on the row of the
    /// default, and with the placeholder in place of each cookie unless
    /// the secrets are to be shown.
    pub fn list_cookies(&self, show_secrets: bool) -> (r: String)
        ensures
            self@.listed_by(self@.listing()),
            r@ == list_text(self@.listing(), self@.active, show_secrets),
    {
        proof {
            use_type_invariant(self);
        }
        let ghost list = pairs_view(self.cookies@);
        proof {
            lemma_sessions_at_lists(list);
            lemma_listing_unique(self@, list, self@.listing());
        }
        if self.cookies.len() == 0 {
            return String::from_str("No stored cookies!\n");
        }
        let mut rows = String::new();
        let mut i: usize = 0;
        while i < self.cookies.len()
            invariant
                i <= self.cookies@.len(),
                list == pairs_view(self.cookies@),
                rows@ == rows_text(list.take(i as int), self@.active, show_secrets),
                self@.active == option_view(self.default),
            decreases self.cookies@.len() - i,
        {
            let url = self.cookies[i].0.as_str();
            let active = match &self.default {
                Some(d) => same_text(d.as_str(), url),
                None => false,
            };
            let mut row = String::from_str(
                if active {
                    "[*]\t"
                } else {
                    "[ ]\t"
                },
            );
            row.append(url);
            row.append(": ");
            if show_secrets {
                row.append(self.cookies[i].1.as_str());
            } else {
                row.append("[REDACTED]");
            }
            row.append("\n");
            rows.append(row.as_str());
            proof {
                let grown = list.take(i + 1);
                assert(grown.drop_last() =~= list.take(i as int));
                assert(grown.last() == list[i as int]);
            }
            i += 1;
        }
        proof {
            assert(list.take(self.cookies@.len() as int) =~= list);
        }
        let mut r = String::from_str(
            if show_secrets {
                "DEFAULT\tURL\tCOOKIE\n"
            } else {
                "NOTE: secrets are redacted. To reveal, pass --show-secrets\n\nDEFAULT\tURL\tCOOKIE\n"
            },
        );
        r.append(rows.as_str());
        r
    }

    /// The stored sessions as rows, in the order of the urls: for each
    /// session its url, the cookie or the placeholder in its place, and
    /// whether the url is the default.
    pub fn entries(&self, show_secrets: bool) -> (r: Vec<(String, String, bool)>)
        ensures
            self@.listed_by(self@.listing()),
            r@.len() == self@.listing().len(),
            forall|i: int|
                0 <= i < r@.len() ==> (#[trigger] r@[i]).0@ == self@.listing()[i].0 && r@[i].1@
                    == shown_cookie(self@.listing()[i].1, show_secrets) && r@[i].2 == (
                self@.active == Some(self@.listing()[i].0)),
    {
        proof {
            use_type_invariant(self);
        }
        let ghost list = pairs_view(self.cookies@);
        proof {
            lemma_sessions_at_lists(list);
            lemma_listing_unique(self@, list, self@.listing());
        }
        let mut r: Vec<(String, String, bool)> = Vec::new();
        let mut i: usize = 0;
        while i < self.cookies.len()
            invariant
                i <= self.cookies@.len(),
                list == pairs_view(self.cookies@),
                self@.active == option_view(self.default),
                r@.len() == i,
                forall|k: int|
                    0 <= k < i ==> (#[trigger] r@[k]).0@ == list[k].0 && r@[k].1@ == shown_cookie(
                        list[k].1,
                        show_secrets,
                    ) && r@[k].2 == (self@.active == Some(list[k].0)),
            decreases self.cookies@.len() - i,
        {
            let url = &self.cookies[i].0;
            let active = match &self.default {
                Some(d) => same_text(d.as_str(), url.as_str()),
                None => false,
            };
            let shown = if show_secrets {
                self.cookies[i].1.clone()
            } else {
                String::from_str("[REDACTED]")
            };
            r.push((url.clone(), shown, active));
            i += 1;
        }
        r
    }

    /// What is written to the file of the store: the sessions in the
    /// order of their urls, and the default.
    pub fn save_config(&self) -> (r: SavedConfig)
        ensures
            self@.listed_by(pairs_view(r.cookies@)),
            option_view(r.default) == self@.active,
            self@.wf(),
    {
        proof {
            use_type_invariant(self);
            lemma_sessions_at_lists(pairs_view(self.cookies@));
        }
        let mut cookies: Vec<(String, String)> = Vec::new();
        let mut i: usize = 0;
        while i < self.cookies.len()
            invariant
                i <= self.cookies@.len(),
                cookies@.len() == i,
                forall|k: int|
                    0 <= k < i ==> (#[trigger] cookies@[k]).0@ == self.cookies@[k].0@
                        && cookies@[k].1@ == self.cookies@[k].1@,
            decreases self.cookies@.len() - i,
        {
            cookies.push((self.cookies[i].0.clone(), self.cookies[i].1.clone()));
            i += 1;
        }
        let default = match &self.default {
            Some(d) => Some(d.clone()),
            None => None,
        };
        proof {
            assert(pairs_view(cookies@) =~= pairs_view(self.cookies@));
        }
        SavedConfig { cookies, default }
    }

    /// The store that the file of the store gives. Without a file the
    /// store is empty. The sessions of the file are stored one after the
    /// other. A default for which the file has no session is an error.
    pub fn from_file(file: Option<SavedConfig>) -> (r: Result<Config, Failure>)
        ensures
            match file {
                None => r matches Ok(c) && c@ == StoreView::empty(),
                Some(saved) => match StoreView::loaded(
                    pairs_view(saved.cookies@),
                    option_view(saved.default),
                ) {
                    Ok(view) => r matches Ok(c) && c@ == view,
                    Err(kind) => r matches Err(f) && f@ == (kind, stray_default_message()),
                },
            },
    {
        let saved = match file {
            None => {
                return Ok(Config::new());
            },
            Some(saved) => saved,
        };
        let SavedConfig { cookies, default } = saved;
        let ghost list = pairs_view(cookies@);
        let mut config = Config::new();
        let mut i: usize = 0;
        assert(config@.sessions =~= sessions_of(list.take(0)));
        while i < cookies.len()
            invariant
                i <= cookies@.len(),
                list == pairs_view(cookies@),
                config@.sessions == sessions_of(list.take(i as int)),
                config@.active is None,
            decreases cookies@.len() - i,
        {
            config.put(cookies[i].0.clone(), cookies[i].1.clone());
            proof {
                let grown = list.take(i + 1);
                assert(grown.drop_last() =~= list.take(i as int));
                assert(grown.last() == list[i as int]);
            }
            i += 1;
        }
        proof {
            assert(list.take(cookies@.len() as int) =~= list);
        }
        match default {
            None => Ok(config),
            Some(url) => {
                if config.contains_key(url.as_str()) {
                    proof {
                        use_type_invariant(&config);
                    }
                    let Config { cookies: kept, default: _ } = config;
                    Ok(Config { cookies: kept, default: Some(url) })
                } else {
                    Err(
                        failure(
                            ErrorKind::Decode,
                            "The default url of the configuration file has no cookie.",
                        ),
                    )
                }
            },
        }
    }
}

} // verus!
