//! Path patterns. A pattern such as `/users/:id/posts` is a path in which a
//! segment that begins with a colon stands for any nonempty text without a
//! slash, which is captured under the segment's name. Matching is done by a
//! regular expression made from the pattern.

use vstd::prelude::*;
use vstd::string::*;

verus! {

/// The names and values captured from a path, in the order of the names in
/// the pattern.
pub type Captures = Vec<(String, String)>;

/// A pattern for paths: the regular expression made from it, as text, and
/// the names of its parameters.
#[derive(Debug, Clone, PartialEq, Eq)]
pub struct PathPattern {
    source: String,
    capture_group_names: Vec<String>,
}

/// A route: requests whose path matches `pattern` go to `svc`, all others
/// to `fallback`.
pub struct Route<S, F> {
    pub pattern: PathPattern,
    pub svc: S,
    pub fallback: F,
}

/// Where a route sends a request.
#[derive(Debug, PartialEq, Eq)]
pub enum Routed {
    /// To the route's own service, with these parameters from the path.
    Service(UrlParams),
    /// To the fallback, with the parameters the request had.
    Fallback(Option<UrlParams>),
}

/// A match of a pattern in a path.
#[derive(Debug, PartialEq, Eq)]
pub struct Match {
    pub captures: Captures,
    /// Whether the pattern matched the whole path and not just its
    /// beginning.
    pub full_match: bool,
    pub matched: String,
}

/// The parameters taken from the path of a request.
#[derive(Debug, PartialEq, Eq)]
pub struct UrlParams(pub Vec<(String, String)>);

/// The mathematical form of a [`Match`].
pub struct MatchView {
    pub captures: Seq<(Seq<char>, Seq<char>)>,
    pub full_match: bool,
    pub matched: Seq<char>,
}

/// Whether the `regex` crate accepts `source` as a regular expression.
pub uninterp spec fn regex_compiles(source: Seq<char>) -> bool;

/// The text of the leftmost match of the regular expression `source` in
/// `path`. There is none if `path` has no match, and none if `source` is no
/// regular expression.
pub uninterp spec fn regex_match(source: Seq<char>, path: Seq<char>) -> Option<Seq<char>>;

/// The text that the group named `name` of the regular expression `source`
/// captured in the leftmost match in `path`. There is none if there is no
/// match, if the group took no part in it, or if `source` is no regular
/// expression.
pub uninterp spec fn regex_group(source: Seq<char>, path: Seq<char>, name: Seq<char>) -> Option<
    Seq<char>,
>;

/// A parameter of a pattern with what it captured in a path, if anything.
pub type Group = (String, Option<String>);

/// The texts of a list of strings.
pub open spec fn texts(names: Seq<String>) -> Seq<Seq<char>> {
    Seq::new(names.len(), |i: int| names[i]@)
}

/// The texts of a list of groups.
pub open spec fn groups_view(groups: Seq<Group>) -> Seq<(Seq<char>, Option<Seq<char>>)> {
    Seq::new(
        groups.len(),
        |i: int|
            (
                groups[i].0@,
                match groups[i].1 {
                    Some(value) => Some(value@),
                    None => None,
                },
            ),
    )
}

/// The texts of a list of captures.
pub open spec fn pairs_view(pairs: Seq<(String, String)>) -> Seq<(Seq<char>, Seq<char>)> {
    Seq::new(pairs.len(), |i: int| (pairs[i].0@, pairs[i].1@))
}

impl View for Match {
    type V = MatchView;

    open spec fn view(&self) -> MatchView {
        MatchView {
            captures: pairs_view(self.captures@),
            full_match: self.full_match,
            matched: self.matched@,
        }
    }
}

/// `Regex::new` of the `regex` crate: whether it accepts `source`, which
/// depends on nothing but the source.
#[verifier::external_body]
fn compiles(source: &str) -> (b: bool)
    ensures
        b == regex_compiles(source@),
{
    regex::Regex::new(source).is_ok()
}

/// `Regex::new` and `Regex::captures` of the `regex` crate: the whole of
/// the leftmost match of the expression `source` in `path`. What is found
/// depends on nothing but the expression and the path. A source that is no
/// expression matches nothing.
#[verifier::external_body]
fn whole_match(source: &str, path: &str) -> (r: Option<String>)
    ensures
        match regex_match(source@, path@) {
            Some(matched) => r matches Some(s) && s@ == matched,
            None => r is None,
        },
{
    let expression = regex::Regex::new(source).ok()?;
    let caps = expression.captures(path)?;
    Some(caps[0].to_string())
}

/// `Regex::new` and `Regex::captures` of the `regex` crate, followed by
/// `Captures::name`: what the group `name` of the expression `source`
/// captured in the leftmost match in `path`. It depends on nothing but the
/// expression, the path and the name. A source that is no expression
/// captures nothing.
#[verifier::external_body]
fn named_group(source: &str, path: &str, name: &str) -> (r: Option<String>)
    ensures
        match regex_group(source@, path@, name@) {
            Some(value) => r matches Some(s) && s@ == value,
            None => r is None,
        },
{
    let expression = regex::Regex::new(source).ok()?;
    let caps = expression.captures(path)?;
    let group = caps.name(name)?;
    Some(group.as_str().to_string())
}

/// The end of the segment that begins at `from`: the index of the next
/// slash, or the length of `s` if there is none.
pub open spec fn segment_end(s: Seq<char>, from: int) -> int
    decreases s.len() - from,
{
    if from >= s.len() {
        s.len() as int
    } else if s[from] == '/' {
        from
    } else {
        segment_end(s, from + 1)
    }
}

/// Whether a segment stands for a parameter: it begins with a colon.
pub open spec fn is_parameter(part: Seq<char>) -> bool {
    part.len() > 0 && part[0] == ':'
}

/// The regular expression for one segment: a named group that takes any
/// nonempty text without a slash for a parameter, the segment itself
/// otherwise.
pub open spec fn piece(part: Seq<char>) -> Seq<char> {
    if is_parameter(part) {
        "(?P<"@ + part.skip(1) + ">[^/]+)"@
    } else {
        part
    }
}

/// The name a segment contributes: its text after the colon if it stands
/// for a parameter, nothing otherwise.
pub open spec fn name_of(part: Seq<char>) -> Seq<Seq<char>> {
    if is_parameter(part) {
        seq![part.skip(1)]
    } else {
        Seq::empty()
    }
}

/// The regular expression for the segments of `s` from index `from` on,
/// joined by slashes.
pub open spec fn joined_from(s: Seq<char>, from: int) -> Seq<char>
    decreases s.len() - from,
{
    let end = segment_end(s, from);
    if from < 0 || end < from || end > s.len() {
        Seq::empty()
    } else if end == s.len() {
        piece(s.subrange(from, end))
    } else {
        piece(s.subrange(from, end)) + "/"@ + joined_from(s, end + 1)
    }
}

/// The names of the parameters among the segments of `s` from index `from`
/// on.
pub open spec fn names_from(s: Seq<char>, from: int) -> Seq<Seq<char>>
    decreases s.len() - from,
{
    let end = segment_end(s, from);
    if from < 0 || end < from || end > s.len() {
        Seq::empty()
    } else if end == s.len() {
        name_of(s.subrange(from, end))
    } else {
        name_of(s.subrange(from, end)) + names_from(s, end + 1)
    }
}

/// The regular expression of a pattern: anchored at the start of the path,
/// then segment by segment.
pub open spec fn regex_source(pattern: Seq<char>) -> Seq<char> {
    "^"@ + joined_from(pattern, 0)
}

/// The names of the parameters of a pattern, left to right.
pub open spec fn parameter_names(pattern: Seq<char>) -> Seq<Seq<char>> {
    names_from(pattern, 0)
}

/// Each of `names` with what the group of that name captured in `path`.
pub open spec fn groups_of(source: Seq<char>, path: Seq<char>, names: Seq<Seq<char>>) -> Seq<
    (Seq<char>, Option<Seq<char>>),
> {
    Seq::new(names.len(), |i: int| (names[i], regex_group(source, path, names[i])))
}

/// The name and value of every group that captured something, in the order
/// of the groups.
pub open spec fn kept(groups: Seq<(Seq<char>, Option<Seq<char>>)>) -> Seq<(Seq<char>, Seq<char>)>
    decreases groups.len(),
{
    if groups.len() == 0 {
        Seq::empty()
    } else {
        let before = kept(groups.drop_last());
        match groups.last().1 {
            Some(value) => before.push((groups.last().0, value)),
            None => before,
        }
    }
}

/// The match that is made of the text `matched`, found in `path`, and of
/// `groups`: the captures are the groups that captured something, and the
/// match is full if the text is all of the path.
pub open spec fn built(
    matched: Seq<char>,
    path: Seq<char>,
    groups: Seq<(Seq<char>, Option<Seq<char>>)>,
) -> MatchView {
    MatchView { captures: kept(groups), full_match: matched == path, matched }
}

/// The match of the regular expression `source`, with groups `names`, in
/// `path`.
pub open spec fn match_of(source: Seq<char>, names: Seq<Seq<char>>, path: Seq<char>) -> Option<
    MatchView,
> {
    match regex_match(source, path) {
        Some(matched) => Some(built(matched, path, groups_of(source, path, names))),
        None => None,
    }
}

/// The end of a segment lies between its beginning and the end of the
/// text, no slash lies before it, and a slash lies at it unless the text
/// ends there.
pub proof fn lemma_segment_end(s: Seq<char>, from: int)
    requires
        0 <= from <= s.len(),
    ensures
        from <= segment_end(s, from) <= s.len(),
        forall|i: int| from <= i < segment_end(s, from) ==> s[i] != '/',
        segment_end(s, from) < s.len() ==> s[segment_end(s, from)] == '/',
    decreases s.len() - from,
{
    if from < s.len() && s[from] != '/' {
        lemma_segment_end(s, from + 1);
    }
}

/// A pattern without parameters matches itself: its regular expression is
/// the pattern, anchored at the start.
pub proof fn lemma_plain_pattern_is_itself(s: Seq<char>, from: int)
    requires
        0 <= from <= s.len(),
        names_from(s, from).len() == 0,
    ensures
        joined_from(s, from) == s.subrange(from, s.len() as int),
        from == 0 ==> regex_source(s) == "^"@ + s,
    decreases s.len() - from,
{
    reveal_strlit("/");
    lemma_segment_end(s, from);
    let end = segment_end(s, from);
    if end < s.len() {
        lemma_plain_pattern_is_itself(s, end + 1);
    }
}

impl PathPattern {
    /// The names of the parameters of the pattern, left to right.
    pub closed spec fn names(&self) -> Seq<Seq<char>> {
        texts(self.capture_group_names@)
    }

    /// The regular expression of the pattern.
    pub closed spec fn source(&self) -> Seq<char> {
        self.source@
    }

    /// The regular expression of the pattern.
    pub fn regex(&self) -> (source: &str)
        ensures
            source@ == self.source(),
    {
        self.source.as_str()
    }

    /// The names of the parameters of the pattern, left to right.
    pub fn capture_names(&self) -> (names: &Vec<String>)
        ensures
            texts(names@) == self.names(),
    {
        &self.capture_group_names
    }

    /// The regular expression and the parameter names of `pattern`.
    pub fn to_regex(pattern: &str) -> (r: (String, Vec<String>))
        ensures
            r.0@ == regex_source(pattern@),
            texts(r.1@) == parameter_names(pattern@),
    {
        let n: usize = pattern.unicode_len();
        let mut out = String::from_str("^");
        let mut names: Vec<String> = Vec::new();
        let mut from: usize = 0;
        let ghost s = pattern@;
        let mut done: bool = false;
        while !done
            invariant
                s == pattern@,
                n == s.len(),
                from <= n,
                !done ==> out@ + joined_from(s, from as int) == regex_source(s),
                !done ==> texts(names@) + names_from(s, from as int) == parameter_names(s),
                done ==> out@ == regex_source(s),
                done ==> texts(names@) == parameter_names(s),
            decreases (if done { 0int } else { 1int }), n - from,
        {
            let mut end: usize = from;
            while end < n && pattern.get_char(end) != '/'
                invariant
                    s == pattern@,
                    n == s.len(),
                    from <= end <= n,
                    segment_end(s, from as int) == segment_end(s, end as int),
                decreases n - end,
            {
                end = end + 1;
            }
            proof {
                lemma_segment_end(s, from as int);
                lemma_segment_end(s, end as int);
            }
            if end > from && pattern.get_char(from) == ':' {
                let key = pattern.substring_char(from + 1, end);
                assert(key@ =~= s.subrange(from as int, end as int).skip(1));
                names.push(String::from_str(key));
                out.append("(?P<");
                out.append(key);
                out.append(">[^/]+)");
            } else {
                let whole = pattern.substring_char(from, end);
                out.append(whole);
            }
            if end >= n {
                from = n;
                done = true;
            } else {
                out.append("/");
                from = end + 1;
            }
        }
        (out, names)
    }

    /// The pattern written as `pattern`, which begins with a slash and whose
    /// regular expression the `regex` crate accepts.
    pub fn new(pattern: &str) -> (r: PathPattern)
        requires
            pattern@.len() > 0 && pattern@[0] == '/',
            regex_compiles(regex_source(pattern@)),
        ensures
            r.source() == regex_source(pattern@),
            r.names() == parameter_names(pattern@),
    {
        let (source, capture_group_names) = PathPattern::to_regex(pattern);
        PathPattern { source, capture_group_names }
    }

    /// Whether `pattern` can be made a pattern: it begins with a slash, and
    /// the `regex` crate accepts its regular expression.
    pub open spec fn acceptable(pattern: Seq<char>) -> bool {
        pattern.len() > 0 && pattern[0] == '/' && regex_compiles(regex_source(pattern))
    }

    /// Whether `pattern` can be made a pattern.
    pub fn accepts(pattern: &str) -> (b: bool)
        ensures
            b == PathPattern::acceptable(pattern@),
    {
        if pattern.unicode_len() == 0 || pattern.get_char(0) != '/' {
            return false;
        }
        let (source, _) = PathPattern::to_regex(pattern);
        compiles(source.as_str())
    }

    /// The pattern written as `pattern`, if it can be made one.
    pub fn try_new(pattern: &str) -> (r: Option<PathPattern>)
        ensures
            match r {
                Some(p) => {
                    &&& PathPattern::acceptable(pattern@)
                    &&& p.source() == regex_source(pattern@)
                    &&& p.names() == parameter_names(pattern@)
                },
                None => !PathPattern::acceptable(pattern@),
            },
    {
        if PathPattern::accepts(pattern) {
            Some(PathPattern::new(pattern))
        } else {
            None
        }
    }

    /// The match of the pattern in `path`, in mathematical form.
    pub open spec fn found(&self, path: Seq<char>) -> Option<MatchView> {
        match_of(self.source(), self.names(), path)
    }

    /// The captures of the match of the whole of `path`, if the pattern
    /// matches all of it.
    pub fn full_match(&self, path: &str) -> (r: Option<Captures>)
        ensures
            match self.found(path@) {
                Some(m) if m.full_match => r matches Some(c) && pairs_view(c@) == m.captures,
                _ => r is None,
            },
    {
        match self.do_match(path) {
            Some(m) => if m.full_match {
                Some(m.captures)
            } else {
                None
            },
            None => None,
        }
    }

    /// The text matched at the beginning of `path` and its captures, if the
    /// pattern matches there.
    pub fn prefix_match(&self, path: &str) -> (r: Option<(String, Captures)>)
        ensures
            match self.found(path@) {
                Some(m) => r matches Some(p) && p.0@ == m.matched && pairs_view(p.1@)
                    == m.captures,
                None => r is None,
            },
    {
        match self.do_match(path) {
            Some(m) => Some((m.matched, m.captures)),
            None => None,
        }
    }

    /// The match of the pattern in `path`: the text matched, whether that
    /// is all of `path`, and the name and value of every parameter.
    pub fn do_match(&self, path: &str) -> (r: Option<Match>)
        ensures
            match self.found(path@) {
                Some(m) => r matches Some(found) && found@ == m,
                None => r is None,
            },
    {
        let matched = match whole_match(self.source.as_str(), path) {
            Some(matched) => matched,
            None => {
                return None;
            },
        };
        let mut groups: Vec<Group> = Vec::new();
        let mut i: usize = 0;
        let ghost names = texts(self.capture_group_names@);
        while i < self.capture_group_names.len()
            invariant
                i <= self.capture_group_names@.len(),
                names == texts(self.capture_group_names@),
                groups_view(groups@) == groups_of(self.source@, path@, names.take(i as int)),
            decreases self.capture_group_names.len() - i,
        {
            let ghost before = groups_view(groups@);
            let name = &self.capture_group_names[i];
            let value = named_group(self.source.as_str(), path, name.as_str());
            groups.push((name.clone(), value));
            assert(groups_view(groups@) =~= before.push(
                (name@, regex_group(self.source@, path@, name@)),
            ));
            assert(groups_of(self.source@, path@, names.take(i + 1)) =~= before.push(
                (name@, regex_group(self.source@, path@, name@)),
            ));
            i = i + 1;
        }
        assert(names.take(i as int) =~= names);
        Some(PathPattern::matched(matched, path, groups))
    }

    /// The match that is made of the text `matched`, which was found in
    /// `path`, and of `groups`, the parameters with what each captured: the
    /// captures are the parameters that captured something, in their order,
    /// and the match is full if the text is all of the path.
    pub fn matched(matched: String, path: &str, groups: Vec<Group>) -> (r: Match)
        ensures
            r@ == built(matched@, path@, groups_view(groups@)),
    {
        let full_match: bool = crate::text::str_eq(matched.as_str(), path);
        let ghost all = groups_view(groups@);
        let mut captures: Captures = Vec::new();
        let mut i: usize = 0;
        assert(all.take(0) =~= Seq::<(Seq<char>, Option<Seq<char>>)>::empty());
        while i < groups.len()
            invariant
                i <= groups@.len(),
                all == groups_view(groups@),
                pairs_view(captures@) == kept(all.take(i as int)),
            decreases groups.len() - i,
        {
            let ghost before = pairs_view(captures@);
            assert(all.take(i + 1).drop_last() =~= all.take(i as int));
            assert(all.take(i + 1).last() == all[i as int]);
            match &groups[i].1 {
                Some(value) => {
                    captures.push((groups[i].0.clone(), value.clone()));
                    assert(pairs_view(captures@) =~= before.push((groups@[i as int].0@, value@)));
                },
                None => {},
            }
            i = i + 1;
        }
        assert(all.take(i as int) =~= all);
        Match { captures, full_match, matched }
    }
}

/// The parameters a request carries, none if it carries no list of them.
pub open spec fn carried(current: Option<UrlParams>) -> Seq<(Seq<char>, Seq<char>)> {
    match current {
        Some(c) => pairs_view(c.0@),
        None => Seq::empty(),
    }
}

impl<S, F> Route<S, F> {
    /// Where the route sends a request with path `path` that carries the
    /// parameters `current`: to its own service if the pattern matches the
    /// whole path, with what the pattern captured added to the parameters,
    /// and to the fallback otherwise.
    pub fn call(&self, path: &str, current: Option<UrlParams>) -> (r: Routed)
        ensures
            match self.pattern.found(path@) {
                Some(m) if m.full_match => r matches Routed::Service(params) && pairs_view(
                    params.0@,
                ) == carried(current) + m.captures,
                _ => r == Routed::Fallback(current),
            },
    {
        match self.pattern.full_match(path) {
            Some(captures) => {
                let params = insert_url_params(current, captures);
                Routed::Service(params)
            },
            None => Routed::Fallback(current),
        }
    }
}

/// Adds `params` to the parameters a request already carries, if it carries
/// any, keeping the order: what was there comes first.
pub fn insert_url_params(current: Option<UrlParams>, params: Vec<(String, String)>) -> (r: UrlParams)
    ensures
        r.0@ == match current {
            Some(c) => c.0@ + params@,
            None => params@,
        },
{
    match current {
        Some(c) => {
            let mut all = c.0;
            let mut rest = params;
            all.append(&mut rest);
            UrlParams(all)
        },
        None => UrlParams(params),
    }
}

} // verus!
