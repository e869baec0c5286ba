//! Pure logic of the runtime contribution list.
//!
//! The surrounding page fetches pull-request items from a code-hosting
//! API and caches them, keyed by the build-provenance timestamp.  All
//! decisions and transformations of that component live here as pure
//! verified functions: shortening a repository address, rendering an
//! ISO date for display, deriving an item's status, assembling display
//! records, and deciding whether a cached list is still fresh.

use vstd::prelude::*;
use crate::text::{push_str, str_eq, string_from_chars};

verus! {

/// The part of `s` before the first occurrence of `c`; all of `s` when
/// `c` does not occur.
pub open spec fn before_char(s: Seq<char>, c: char) -> Seq<char>
    decreases s.len(),
{
    if s.len() == 0 {
        s
    } else if s[0] == c {
        Seq::<char>::empty()
    } else {
        seq![s[0]] + before_char(s.skip(1), c)
    }
}

/// The part of `s` after the first occurrence of `c`; empty when `c`
/// does not occur.
pub open spec fn after_char(s: Seq<char>, c: char) -> Seq<char>
    decreases s.len(),
{
    if s.len() == 0 {
        s
    } else if s[0] == c {
        s.skip(1)
    } else {
        after_char(s.skip(1), c)
    }
}

/// The index of the first occurrence of `c` in `s`, or the length of
/// `s` when `c` does not occur.
pub fn find_char(s: &str, c: char) -> (i: usize)
    ensures
        i <= s@.len(),
        before_char(s@, c) == s@.take(i as int),
        i < s@.len() ==> s@[i as int] == c && after_char(s@, c) == s@.skip(i + 1),
{
    let n: usize = s.unicode_len();
    let mut t: usize = 0;
    proof {
        assert(s@.skip(0) =~= s@);
        assert(s@.take(0) + before_char(s@, c) =~= before_char(s@, c));
    }
    while t < n && s.get_char(t) != c
        invariant
            t <= n,
            n == s@.len(),
            before_char(s@, c) == s@.take(t as int) + before_char(s@.skip(t as int), c),
            after_char(s@, c) == after_char(s@.skip(t as int), c),
            forall|j: int| 0 <= j < t ==> s@[j] != c,
        decreases n - t,
    {
        proof {
            assert(s@.skip(t as int)[0] == s@[t as int]);
            assert(s@.skip(t as int).skip(1) =~= s@.skip(t + 1));
            assert(s@.take(t as int) + seq![s@[t as int]] =~= s@.take(t + 1));
            assert(s@.take(t as int) + (seq![s@[t as int]] + before_char(s@.skip(t + 1), c)) =~= (
            s@.take(t as int) + seq![s@[t as int]]) + before_char(s@.skip(t + 1), c));
        }
        t = t + 1;
    }
    proof {
        if t == n {
            assert(s@.skip(n as int) =~= Seq::<char>::empty());
            assert(s@.take(n as int) + Seq::<char>::empty() =~= s@.take(n as int));
        } else {
            assert(s@.skip(t as int)[0] == s@[t as int]);
            assert(s@.take(t as int) + Seq::<char>::empty() =~= s@.take(t as int));
            assert(s@.skip(t as int).skip(1) =~= s@.skip(t + 1));
        }
    }
    t
}

/// The prefix under which the hosting API reports repository addresses.
pub open spec fn api_repo_prefix() -> Seq<char> {
    "https://api.github.com/repos/"@
}

/// A repository address with the API prefix removed; other addresses
/// stay as they are.
pub open spec fn repo_name_spec(u: Seq<char>) -> Seq<char> {
    if u.len() >= api_repo_prefix().len() && u.take(api_repo_prefix().len() as int)
        == api_repo_prefix() {
        u.skip(api_repo_prefix().len() as int)
    } else {
        u
    }
}

/// Whether `p` is a prefix of `s`.
fn starts_with(s: &str, p: &str) -> (r: bool)
    ensures
        r == (s@.len() >= p@.len() && s@.take(p@.len() as int) == p@),
{
    let n: usize = s.unicode_len();
    let m: usize = p.unicode_len();
    if n < m {
        return false;
    }
    for i in 0..m
        invariant
            m <= n,
            n == s@.len(),
            m == p@.len(),
            forall|j: int| 0 <= j < i ==> s@[j] == p@[j],
    {
        if s.get_char(i) != p.get_char(i) {
            proof {
                assert(s@.take(m as int)[i as int] != p@[i as int]);
            }
            return false;
        }
    }
    proof {
        assert(s@.take(m as int) =~= p@);
    }
    true
}

/// Shortens a repository address reported by the hosting API to its
/// owner/name form.
pub fn extract_repo_name(repo_url: &str) -> (r: String)
    ensures
        r@ == repo_name_spec(repo_url@),
{
    let prefix = "https://api.github.com/repos/";
    if starts_with(repo_url, prefix) {
        let m: usize = prefix.unicode_len();
        let n: usize = repo_url.unicode_len();
        let rest = repo_url.substring_char(m, n);
        proof {
            assert(rest@ =~= repo_url@.skip(m as int));
        }
        rest.to_owned()
    } else {
        repo_url.to_owned()
    }
}

/// The display name of a two-digit month; other strings stay as they
/// are.
pub open spec fn month_name(p: Seq<char>) -> Seq<char> {
    if p == "01"@ {
        "Jan"@
    } else if p == "02"@ {
        "Feb"@
    } else if p == "03"@ {
        "Mar"@
    } else if p == "04"@ {
        "Apr"@
    } else if p == "05"@ {
        "May"@
    } else if p == "06"@ {
        "Jun"@
    } else if p == "07"@ {
        "Jul"@
    } else if p == "08"@ {
        "Aug"@
    } else if p == "09"@ {
        "Sep"@
    } else if p == "10"@ {
        "Oct"@
    } else if p == "11"@ {
        "Nov"@
    } else if p == "12"@ {
        "Dec"@
    } else {
        p
    }
}

/// `s` without its leading zero digits.
pub open spec fn strip_leading_zeros(s: Seq<char>) -> Seq<char>
    decreases s.len(),
{
    if s.len() > 0 && s[0] == '0' {
        strip_leading_zeros(s.skip(1))
    } else {
        s
    }
}

/// The display form of an ISO-8601 date: for `YYYY-MM-DD` (with an
/// optional time suffix after `T`) it is `Mon D, YYYY`; anything else
/// is shown as its date part unchanged.
pub open spec fn format_date_spec(s: Seq<char>) -> Seq<char> {
    let d = before_char(s, 'T');
    let p0 = before_char(d, '-');
    if p0.len() == d.len() {
        d
    } else {
        let r1 = d.skip(p0.len() as int + 1);
        let p1 = before_char(r1, '-');
        if p1.len() == r1.len() {
            d
        } else {
            let p2 = r1.skip(p1.len() as int + 1);
            if before_char(p2, '-').len() != p2.len() {
                d
            } else {
                month_name(p1) + " "@ + strip_leading_zeros(p2) + ", "@ + p0
            }
        }
    }
}

/// Appends the display name of a month part.
fn push_month_name(out: &mut Vec<char>, p: &str)
    ensures
        final(out)@ == old(out)@ + month_name(p@),
{
    if str_eq(p, "01") {
        push_str(out, "Jan");
    } else if str_eq(p, "02") {
        push_str(out, "Feb");
    } else if str_eq(p, "03") {
        push_str(out, "Mar");
    } else if str_eq(p, "04") {
        push_str(out, "Apr");
    } else if str_eq(p, "05") {
        push_str(out, "May");
    } else if str_eq(p, "06") {
        push_str(out, "Jun");
    } else if str_eq(p, "07") {
        push_str(out, "Jul");
    } else if str_eq(p, "08") {
        push_str(out, "Aug");
    } else if str_eq(p, "09") {
        push_str(out, "Sep");
    } else if str_eq(p, "10") {
        push_str(out, "Oct");
    } else if str_eq(p, "11") {
        push_str(out, "Nov");
    } else if str_eq(p, "12") {
        push_str(out, "Dec");
    } else {
        push_str(out, p);
    }
}

/// Appends `s` without its leading zero digits.
fn push_stripped_zeros(out: &mut Vec<char>, s: &str)
    ensures
        final(out)@ == old(out)@ + strip_leading_zeros(s@),
{
    let n: usize = s.unicode_len();
    let mut k: usize = 0;
    proof {
        assert(s@.skip(0) =~= s@);
    }
    while k < n && s.get_char(k) == '0'
        invariant
            k <= n,
            n == s@.len(),
            strip_leading_zeros(s@) == strip_leading_zeros(s@.skip(k as int)),
        decreases n - k,
    {
        proof {
            assert(s@.skip(k as int)[0] == s@[k as int]);
            assert(s@.skip(k as int).skip(1) =~= s@.skip(k + 1));
        }
        k = k + 1;
    }
    proof {
        if k == n {
            assert(s@.skip(n as int) =~= Seq::<char>::empty());
        }
        assert(strip_leading_zeros(s@) == s@.skip(k as int));
    }
    let rest = s.substring_char(k, n);
    proof {
        assert(rest@ =~= s@.skip(k as int));
    }
    push_str(out, rest);
}

/// Renders an ISO-8601 date for display.
pub fn format_date(iso_date: &str) -> (r: String)
    ensures
        r@ == format_date_spec(iso_date@),
{
    let dlen = find_char(iso_date, 'T');
    let d = iso_date.substring_char(0, dlen);
    proof {
        assert(d@ == before_char(iso_date@, 'T'));
    }
    let m: usize = d.unicode_len();
    let i1 = find_char(d, '-');
    if i1 == m {
        proof {
            assert(d@.take(m as int) =~= d@);
        }
        return d.to_owned();
    }
    let p0 = d.substring_char(0, i1);
    let r1 = d.substring_char(i1 + 1, m);
    proof {
        assert(p0@.len() == i1 as int);
        assert(r1@ =~= d@.skip(i1 + 1));
    }
    let rlen: usize = r1.unicode_len();
    let i2 = find_char(r1, '-');
    if i2 == rlen {
        proof {
            assert(r1@.take(rlen as int) =~= r1@);
        }
        return d.to_owned();
    }
    let p1 = r1.substring_char(0, i2);
    let p2 = r1.substring_char(i2 + 1, rlen);
    proof {
        assert(p1@.len() == i2 as int);
        assert(p2@ =~= r1@.skip(i2 + 1));
    }
    let plen: usize = p2.unicode_len();
    let i3 = find_char(p2, '-');
    if i3 < plen {
        proof {
            assert(before_char(p2@, '-').len() == i3 as int);
        }
        return d.to_owned();
    }
    proof {
        assert(p2@.take(plen as int) =~= p2@);
    }
    let mut out: Vec<char> = Vec::new();
    push_month_name(&mut out, p1);
    push_str(&mut out, " ");
    push_stripped_zeros(&mut out, p2);
    push_str(&mut out, ", ");
    push_str(&mut out, p0);
    proof {
        assert(out@ =~= format_date_spec(iso_date@));
    }
    string_from_chars(&out)
}

/// Pull-request details attached to an item when it is a pull request.
pub struct PullRequestInfo {
    pub merged_at: Option<String>,
}

pub ghost struct PullRequestInfoView {
    pub merged_at: Option<Seq<char>>,
}

impl DeepView for PullRequestInfo {
    type V = PullRequestInfoView;

    open spec fn deep_view(&self) -> PullRequestInfoView {
        PullRequestInfoView { merged_at: self.merged_at.deep_view() }
    }
}

/// One item as the hosting API reports it, already parsed into plain
/// values.
pub struct GithubItem {
    pub title: String,
    pub html_url: String,
    pub state: String,
    pub created_at: String,
    pub pull_request: Option<PullRequestInfo>,
    pub repository_url: String,
}

pub ghost struct GithubItemView {
    pub title: Seq<char>,
    pub html_url: Seq<char>,
    pub state: Seq<char>,
    pub created_at: Seq<char>,
    pub pull_request: Option<PullRequestInfoView>,
    pub repository_url: Seq<char>,
}

impl DeepView for GithubItem {
    type V = GithubItemView;

    open spec fn deep_view(&self) -> GithubItemView {
        GithubItemView {
            title: self.title@,
            html_url: self.html_url@,
            state: self.state@,
            created_at: self.created_at@,
            pull_request: self.pull_request.deep_view(),
            repository_url: self.repository_url@,
        }
    }
}

/// One pull request as the page displays it.
pub struct PullRequest {
    pub title: String,
    pub url: String,
    pub repo: String,
    pub repo_url: String,
    pub status: String,
    pub date: String,
}

pub ghost struct PullRequestView {
    pub title: Seq<char>,
    pub url: Seq<char>,
    pub repo: Seq<char>,
    pub repo_url: Seq<char>,
    pub status: Seq<char>,
    pub date: Seq<char>,
}

impl DeepView for PullRequest {
    type V = PullRequestView;

    open spec fn deep_view(&self) -> PullRequestView {
        PullRequestView {
            title: self.title@,
            url: self.url@,
            repo: self.repo@,
            repo_url: self.repo_url@,
            status: self.status@,
            date: self.date@,
        }
    }
}

/// An item's display status: merged pull requests say so, everything
/// else shows the reported state.
pub open spec fn status_spec(item: GithubItemView) -> Seq<char> {
    match item.pull_request {
        Option::Some(pr) => match pr.merged_at {
            Option::Some(_) => "merged"@,
            Option::None => item.state,
        },
        Option::None => item.state,
    }
}

/// Derives an item's display status.
pub fn get_status(item: &GithubItem) -> (r: String)
    ensures
        r@ == status_spec(item.deep_view()),
{
    match &item.pull_request {
        Option::Some(pr) => match &pr.merged_at {
            Option::Some(_) => String::from_str("merged"),
            Option::None => item.state.clone(),
        },
        Option::None => item.state.clone(),
    }
}

/// The display record derived from one reported item.
pub open spec fn pull_request_spec(item: GithubItemView) -> PullRequestView {
    PullRequestView {
        title: item.title,
        url: item.html_url,
        repo: repo_name_spec(item.repository_url),
        repo_url: "https://github.com/"@ + repo_name_spec(item.repository_url),
        status: status_spec(item),
        date: format_date_spec(item.created_at),
    }
}

/// Turns one reported item into its display record.
pub fn to_pull_request(item: &GithubItem) -> (r: PullRequest)
    ensures
        r.deep_view() == pull_request_spec(item.deep_view()),
{
    let status = get_status(item);
    let repo = extract_repo_name(item.repository_url.as_str());
    let mut repo_url_chars: Vec<char> = Vec::new();
    push_str(&mut repo_url_chars, "https://github.com/");
    push_str(&mut repo_url_chars, repo.as_str());
    proof {
        assert(Seq::<char>::empty() + "https://github.com/"@ + repo@ =~= "https://github.com/"@
            + repo@);
    }
    let repo_url = string_from_chars(&repo_url_chars);
    PullRequest {
        title: item.title.clone(),
        url: item.html_url.clone(),
        repo,
        repo_url,
        status,
        date: format_date(item.created_at.as_str()),
    }
}

/// Turns the reported items into display records, in order.
pub fn convert_items(items: &Vec<GithubItem>) -> (r: Vec<PullRequest>)
    ensures
        r.deep_view() == items.deep_view().map_values(|it: GithubItemView| pull_request_spec(it)),
{
    let mut out: Vec<PullRequest> = Vec::new();
    let n = items.len();
    proof {
        assert(out.deep_view() =~= items.deep_view().take(0).map_values(
            |it: GithubItemView| pull_request_spec(it),
        ));
    }
    for i in 0..n
        invariant
            n == items.len(),
            out.deep_view() == items.deep_view().take(i as int).map_values(
                |it: GithubItemView| pull_request_spec(it),
            ),
    {
        let pr = to_pull_request(&items[i]);
        let ghost prv = pr.deep_view();
        let ghost prev_dv = out.deep_view();
        out.push(pr);
        proof {
            assert(out.deep_view() =~= prev_dv.push(prv));
            assert(prev_dv.push(prv) =~= items.deep_view().take(i + 1).map_values(
                |it: GithubItemView| pull_request_spec(it),
            ));
        }
    }
    proof {
        assert(items.deep_view().take(n as int) =~= items.deep_view());
    }
    out
}

/// Whether a cached contribution list is still fresh: its recorded
/// version must equal this build's provenance timestamp, so any change
/// to the timestamp invalidates the cache.
pub fn cache_is_fresh(cached_version: &str, build_timestamp: &str) -> (r: bool)
    ensures
        r == (cached_version@ == build_timestamp@),
{
    str_eq(cached_version, build_timestamp)
}

/// A persisted contribution list, keyed by the provenance timestamp of
/// the build that stored it.
pub struct CacheRecord {
    pub version: String,
    pub items: Vec<PullRequest>,
}

/// Builds the record to persist: the current build's provenance
/// timestamp paired with the displayed items.
pub fn make_cache_record(build_timestamp: &str, items: Vec<PullRequest>) -> (r: CacheRecord)
    ensures
        r.version@ == build_timestamp@,
        r.items.deep_view() == items.deep_view(),
{
    CacheRecord { version: build_timestamp.to_owned(), items }
}

/// Yields the cached items only when the record was stored under the
/// same provenance timestamp; a stale record yields nothing, so the
/// list is fetched afresh.
pub fn cached_items(record: CacheRecord, build_timestamp: &str) -> (r: Option<Vec<PullRequest>>)
    ensures
        record.version@ == build_timestamp@ ==> (r matches Option::Some(items)
            && items.deep_view() == record.items.deep_view()),
        record.version@ != build_timestamp@ ==> r is None,
{
    if cache_is_fresh(record.version.as_str(), build_timestamp) {
        Option::Some(record.items)
    } else {
        Option::None
    }
}

} // verus!
