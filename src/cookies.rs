use vstd::prelude::*;
use vstd::string::StrSliceExecFns;

verus! {

/// A cookie as a pair of name and value.
pub type CookieModel = (Seq<char>, Seq<char>);

/// The cookies of a request: distinct names, in order of first appearance.
#[derive(Clone, Debug)]
pub struct Cookies {
    entries: Vec<(String, String)>,
}

/// The `Cookie` header was not a list of `name=value` pairs.
#[derive(Clone, Copy, Debug, PartialEq, Eq, Structural)]
pub struct ParseError {}

pub open spec fn names_unique(list: Seq<CookieModel>) -> bool {
    forall|i: int, j: int| 0 <= i < j < list.len() ==> list[i].0 != list[j].0
}

pub open spec fn has_name(list: Seq<CookieModel>, name: Seq<char>) -> bool {
    exists|i: int| 0 <= i < list.len() && list[i].0 == name
}

/// The value of the cookie called `name`, if there is one.
pub open spec fn lookup(list: Seq<CookieModel>, name: Seq<char>) -> Option<Seq<char>> {
    if has_name(list, name) {
        Some(list[choose|i: int| 0 <= i < list.len() && list[i].0 == name].1)
    } else {
        None
    }
}

/// `list` with the cookie `name` set to `value`: replaced in place when present,
/// appended otherwise.
pub open spec fn with_cookie(list: Seq<CookieModel>, name: Seq<char>, value: Seq<char>) -> Seq<
    CookieModel,
> {
    if has_name(list, name) {
        list.update(choose|i: int| 0 <= i < list.len() && list[i].0 == name, (name, value))
    } else {
        list.push((name, value))
    }
}

impl View for Cookies {
    type V = Seq<CookieModel>;

    closed spec fn view(&self) -> Seq<CookieModel> {
        self.entries@.map_values(|e: (String, String)| (e.0@, e.1@))
    }
}

proof fn lemma_unique_choice(list: Seq<CookieModel>, name: Seq<char>, i: int)
    requires
        names_unique(list),
        0 <= i < list.len(),
        list[i].0 == name,
    ensures
        has_name(list, name),
        (choose|j: int| 0 <= j < list.len() && list[j].0 == name) == i,
{
    let j = choose|j: int| 0 <= j < list.len() && list[j].0 == name;
    assert(0 <= j < list.len() && list[j].0 == name);
    if j < i {
        assert(list[j].0 != list[i].0);
    } else if i < j {
        assert(list[i].0 != list[j].0);
    }
}

impl Cookies {
    pub closed spec fn wf(&self) -> bool {
        names_unique(self@)
    }

    /// No cookies.
    pub fn new() -> (r: Cookies)
        ensures
            r@ == Seq::<CookieModel>::empty(),
            r.wf(),
    {
        let r = Cookies { entries: Vec::new() };
        assert(r@ =~= Seq::<CookieModel>::empty());
        r
    }

    fn position(&self, name: &String) -> (r: Option<usize>)
        requires
            self.wf(),
        ensures
            match r {
                Some(i) => i < self@.len() && self@[i as int].0 == name@,
                None => !has_name(self@, name@),
            },
    {
        let mut i: usize = 0;
        while i < self.entries.len()
            invariant
                i <= self.entries@.len(),
                self@.len() == self.entries@.len(),
                forall|j: int| 0 <= j < i ==> self@[j].0 != name@,
            decreases self.entries@.len() - i,
        {
            if self.entries[i].0 == *name {
                return Some(i);
            }
            i = i + 1;
        }
        None
    }

    /// Sets the cookie `name` to `value`.
    pub fn insert(&mut self, name: String, value: String)
        requires
            old(self).wf(),
        ensures
            final(self).wf(),
            final(self)@ == with_cookie(old(self)@, name@, value@),
    {
        let ghost old_list = self@;
        match self.position(&name) {
            Some(i) => {
                proof {
                    lemma_unique_choice(old_list, name@, i as int);
                }
                self.entries[i] = (name, value);
                assert(self@ =~= with_cookie(old_list, name@, value@));
            },
            None => {
                self.entries.push((name, value));
                assert(self@ =~= with_cookie(old_list, name@, value@));
            },
        }
    }

    /// The value of the cookie called `name`.
    pub fn get(&self, name: &str) -> (r: Option<String>)
        requires
            self.wf(),
        ensures
            match lookup(self@, name@) {
                Some(v) => r matches Some(s) && s@ == v,
                None => r is None,
            },
    {
        let key = String::from_str(name);
        match self.position(&key) {
            Some(i) => {
                proof {
                    lemma_unique_choice(self@, name@, i as int);
                }
                Some(self.entries[i].1.clone())
            },
            None => None,
        }
    }

    /// The number of distinct cookies.
    pub fn len(&self) -> (r: usize)
        ensures
            r == self@.len(),
    {
        self.entries.len()
    }

    /// Whether there are no cookies.
    pub fn is_empty(&self) -> (r: bool)
        ensures
            r == (self@.len() == 0),
    {
        self.entries.len() == 0
    }
}

/// Whether the separator `"; "` starts at `i`.
pub open spec fn separator_at(s: Seq<char>, i: int) -> bool {
    0 <= i && i + 1 < s.len() && s[i] == ';' && s[i + 1] == ' '
}

/// The pieces of `s` from `i` on, split at each `"; "`, where `cur` is the part of
/// the current piece before `i`.
pub open spec fn pieces_from(s: Seq<char>, i: int, cur: Seq<char>) -> Seq<Seq<char>>
    decreases s.len() - i,
{
    if i >= s.len() {
        seq![cur]
    } else if separator_at(s, i) {
        seq![cur] + pieces_from(s, i + 2, Seq::empty())
    } else {
        pieces_from(s, i + 1, cur.push(s[i]))
    }
}

/// The pieces of a header split at each `"; "`; an empty header is one empty piece.
pub open spec fn pieces(s: Seq<char>) -> Seq<Seq<char>> {
    pieces_from(s, 0, Seq::empty())
}

/// The position of the first `'='` at or after `i`.
pub open spec fn first_equals_from(p: Seq<char>, i: int) -> Option<int>
    decreases p.len() - i,
{
    if i >= p.len() {
        None
    } else if p[i] == '=' {
        Some(i)
    } else {
        first_equals_from(p, i + 1)
    }
}

/// The cookies that `ps` set in order, skipping empty pieces; `None` when a
/// non-empty piece holds no `'='`. A piece is split at its first `'='`.
pub open spec fn cookies_of(ps: Seq<Seq<char>>) -> Option<Seq<CookieModel>>
    decreases ps.len(),
{
    if ps.len() == 0 {
        Some(Seq::empty())
    } else {
        match cookies_of(ps.drop_last()) {
            None => None,
            Some(list) => {
                let p = ps.last();
                if p.len() == 0 {
                    Some(list)
                } else {
                    match first_equals_from(p, 0) {
                        None => None,
                        Some(k) => Some(
                            with_cookie(list, p.subrange(0, k), p.subrange(k + 1, p.len() as int)),
                        ),
                    }
                }
            },
        }
    }
}

proof fn lemma_failure_stays(ps: Seq<Seq<char>>, k: int)
    requires
        0 <= k <= ps.len(),
        cookies_of(ps.take(k)) is None,
    ensures
        cookies_of(ps) is None,
    decreases ps.len() - k,
{
    if k < ps.len() {
        assert(ps.take(k + 1).drop_last() =~= ps.take(k));
        lemma_failure_stays(ps, k + 1);
    } else {
        assert(ps.take(k) =~= ps);
    }
}

fn separator_at_exec(s: &str, n: usize, i: usize) -> (r: bool)
    requires
        n == s@.len(),
        i < n,
    ensures
        r == separator_at(s@, i as int),
{
    i + 1 < n && s.get_char(i) == ';' && s.get_char(i + 1) == ' '
}

fn split_pieces(s: &str) -> (r: Vec<String>)
    ensures
        r@.map_values(|p: String| p@) == pieces(s@),
{
    let n = s.unicode_len();
    let mut out: Vec<String> = Vec::new();
    let mut start: usize = 0;
    let mut i: usize = 0;
    proof {
        assert(s@.subrange(0, 0) =~= Seq::<char>::empty());
        assert(out@.map_values(|p: String| p@) =~= Seq::<Seq<char>>::empty());
    }
    while i < n
        invariant
            n == s@.len(),
            start <= i <= n,
            out@.map_values(|p: String| p@) + pieces_from(
                s@,
                i as int,
                s@.subrange(start as int, i as int),
            ) == pieces(s@),
        decreases n - i,
    {
        if separator_at_exec(s, n, i) {
            let piece = String::from_str(s.substring_char(start, i));
            proof {
                assert(out@.push(piece).map_values(|p: String| p@) =~= out@.map_values(
                    |p: String| p@,
                ).push(piece@));
                assert(pieces_from(s@, i as int, s@.subrange(start as int, i as int)) == seq![
                    s@.subrange(start as int, i as int),
                ] + pieces_from(s@, i + 2, Seq::empty()));
                assert(s@.subrange(i + 2, i + 2) =~= Seq::<char>::empty());
            }
            out.push(piece);
            proof {
                assert(out@.map_values(|p: String| p@) + pieces_from(s@, i + 2, Seq::empty())
                    =~= pieces(s@));
            }
            i = i + 2;
            start = i;
        } else {
            proof {
                assert(s@.subrange(start as int, i as int).push(s@[i as int]) =~= s@.subrange(
                    start as int,
                    i + 1,
                ));
            }
            i = i + 1;
        }
    }
    let piece = String::from_str(s.substring_char(start, n));
    proof {
        assert(out@.push(piece).map_values(|p: String| p@) =~= out@.map_values(|p: String| p@).push(
            piece@,
        ));
    }
    out.push(piece);
    proof {
        assert(out@.map_values(|p: String| p@) =~= pieces(s@));
    }
    out
}

proof fn lemma_first_equals_bounds(p: Seq<char>, i: int)
    requires
        0 <= i,
    ensures
        first_equals_from(p, i) matches Some(k) ==> i <= k < p.len(),
    decreases p.len() - i,
{
    if i < p.len() && p[i] != '=' {
        lemma_first_equals_bounds(p, i + 1);
    }
}

fn first_equals(p: &str, n: usize) -> (r: Option<usize>)
    requires
        n == p@.len(),
    ensures
        r is None <==> first_equals_from(p@, 0) is None,
        r matches Some(k) ==> first_equals_from(p@, 0) == Some(k as int) && k < n,
{
    proof {
        lemma_first_equals_bounds(p@, 0);
    }
    let mut i: usize = 0;
    while i < n
        invariant
            i <= n,
            n == p@.len(),
            first_equals_from(p@, 0) == first_equals_from(p@, i as int),
        decreases n - i,
    {
        if p.get_char(i) == '=' {
            return Some(i);
        }
        i = i + 1;
    }
    None
}

/// Parses a `Cookie` header: `name=value` pairs separated by `"; "`. Empty pieces
/// are skipped, a value may itself hold `'='` and `';'`, a later cookie of the same
/// name replaces the earlier value, and a non-empty piece without `'='` makes the
/// whole header invalid.
pub fn parse_cookies(cookie_header: &str) -> (r: Result<Cookies, ParseError>)
    ensures
        match cookies_of(pieces(cookie_header@)) {
            Some(list) => r matches Ok(c) && c@ == list && c.wf(),
            None => r is Err,
        },
{
    let ps = split_pieces(cookie_header);
    let ghost model = ps@.map_values(|p: String| p@);
    let mut res = Cookies::new();
    let mut k: usize = 0;
    while k < ps.len()
        invariant
            k <= ps@.len(),
            model == ps@.map_values(|p: String| p@),
            model == pieces(cookie_header@),
            res.wf(),
            cookies_of(model.take(k as int)) == Some(res@),
        decreases ps@.len() - k,
    {
        let piece = ps[k].as_str();
        let n = piece.unicode_len();
        proof {
            assert(model.take(k + 1).drop_last() =~= model.take(k as int));
            assert(model.take(k + 1).last() == piece@);
        }
        if n == 0 {
            assert(cookies_of(model.take(k + 1)) == Some(res@));
            k = k + 1;
            continue;
        }
        match first_equals(piece, n) {
            None => {
                proof {
                    lemma_failure_stays(model, k + 1);
                }
                return Err(ParseError {  });
            },
            Some(eq) => {
                let name = String::from_str(piece.substring_char(0, eq));
                let value = String::from_str(piece.substring_char(eq + 1, n));
                let ghost before = res@;
                res.insert(name, value);
                assert(cookies_of(model.take(k + 1)) == Some(
                    with_cookie(
                        before,
                        piece@.subrange(0, eq as int),
                        piece@.subrange(eq + 1, n as int),
                    ),
                ));
            },
        }
        k = k + 1;
    }
    proof {
        assert(model.take(ps@.len() as int) =~= model);
    }
    Ok(res)
}

} // verus!
