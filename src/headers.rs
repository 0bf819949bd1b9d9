//! The `;key=value` parameters that follow the path of a connection string.

use vstd::prelude::*;
use crate::text::same_text;

verus! {

/// Splits `s` at every `;`. The result always holds at least one segment.
pub open spec fn split_semis(s: Seq<char>) -> Seq<Seq<char>>
    decreases s.len(),
{
    if s.len() == 0 {
        seq![Seq::empty()]
    } else {
        let rest = split_semis(s.drop_last());
        if s.last() == ';' {
            rest.push(Seq::empty())
        } else {
            rest.update(rest.len() - 1, rest.last().push(s.last()))
        }
    }
}

/// A segment that carries a parameter: neither empty nor a bare `/`.
pub open spec fn kept(seg: Seq<char>) -> bool {
    seg.len() > 0 && seg != seq!['/']
}

/// Position of the first `=` in `seg`, or its length when there is none.
pub open spec fn eq_pos(seg: Seq<char>) -> nat
    decreases seg.len(),
{
    if seg.len() == 0 {
        0
    } else if seg[0] == '=' {
        0
    } else {
        1 + eq_pos(seg.drop_first())
    }
}

/// The key of a segment: everything before its first `=`.
pub open spec fn key_of(seg: Seq<char>) -> Seq<char> {
    seg.take(eq_pos(seg) as int)
}

/// The value of a segment: everything after its first `=`, empty without one.
pub open spec fn value_of(seg: Seq<char>) -> Seq<char> {
    if eq_pos(seg) < seg.len() {
        seg.skip(eq_pos(seg) as int + 1)
    } else {
        Seq::empty()
    }
}

/// The parameters of a list of segments; a later key replaces an earlier one.
pub open spec fn header_map(segs: Seq<Seq<char>>) -> Map<Seq<char>, Seq<char>>
    decreases segs.len(),
{
    if segs.len() == 0 {
        Map::empty()
    } else {
        let m = header_map(segs.drop_last());
        let seg = segs.last();
        if kept(seg) {
            m.insert(key_of(seg), value_of(seg))
        } else {
            m
        }
    }
}

/// The parameters that a URL path carries.
pub open spec fn headers_of(path: Seq<char>) -> Map<Seq<char>, Seq<char>> {
    header_map(split_semis(path))
}

pub proof fn lemma_split_nonempty(s: Seq<char>)
    ensures
        split_semis(s).len() >= 1,
    decreases s.len(),
{
    if s.len() > 0 {
        lemma_split_nonempty(s.drop_last());
    }
}

proof fn lemma_eq_pos(seg: Seq<char>, j: int)
    requires
        0 <= j <= seg.len(),
        forall|k: int| 0 <= k < j ==> seg[k] != '=',
        j == seg.len() || seg[j] == '=',
    ensures
        eq_pos(seg) == j,
    decreases j,
{
    if j > 0 {
        let t = seg.drop_first();
        assert forall|k: int| 0 <= k < j - 1 implies t[k] != '=' by {
            assert(t[k] == seg[k + 1]);
        }
        if j < seg.len() {
            assert(t[j - 1] == seg[j]);
        }
        lemma_eq_pos(t, j - 1);
    }
}

/// A set of header pairs with distinct keys.
pub struct Headers {
    entries: Vec<(String, String)>,
}

impl View for Headers {
    type V = Map<Seq<char>, Seq<char>>;

    /// The pairs as a map from key to value.
    closed spec fn view(&self) -> Map<Seq<char>, Seq<char>> {
        Map::new(
            |k: Seq<char>| exists|i: int| self.has_key_at(k, i),
            |k: Seq<char>| self.entries@[choose|i: int| self.has_key_at(k, i)].1@,
        )
    }
}

impl Headers {
    /// Each key occurs once.
    pub closed spec fn wf(&self) -> bool {
        forall|i: int, j: int|
            0 <= i < j < self.entries@.len() ==> self.entries@[i].0@ != self.entries@[j].0@
    }

    closed spec fn has_key_at(&self, k: Seq<char>, i: int) -> bool {
        0 <= i < self.entries@.len() && self.entries@[i].0@ == k
    }


    proof fn lemma_at(&self, i: int)
        requires
            self.wf(),
            0 <= i < self.entries@.len(),
        ensures
            self@.contains_key(self.entries@[i].0@),
            self@[self.entries@[i].0@] == self.entries@[i].1@,
    {
        let k = self.entries@[i].0@;
        assert(self.has_key_at(k, i));
        let c = choose|c: int| self.has_key_at(k, c);
        assert(c == i);
    }

    /// No pairs.
    pub fn new() -> (r: Headers)
        ensures
            r.wf(),
            r@ == Map::<Seq<char>, Seq<char>>::empty(),
    {
        let r = Headers { entries: Vec::new() };
        assert(r@ =~= Map::<Seq<char>, Seq<char>>::empty());
        r
    }

    /// Number of pairs.
    pub fn len(&self) -> (r: usize)
        requires
            self.wf(),
        ensures
            r == self@.len(),
    {
        proof {
            self.lemma_len();
        }
        self.entries.len()
    }

    /// Whether there are no pairs.
    pub fn is_empty(&self) -> (r: bool)
        requires
            self.wf(),
        ensures
            r == (self@ == Map::<Seq<char>, Seq<char>>::empty()),
    {
        proof {
            self.lemma_len();
            if self.entries@.len() > 0 {
                self.lemma_at(0);
                assert(!(self@ =~= Map::<Seq<char>, Seq<char>>::empty()));
            } else {
                assert(self@ =~= Map::<Seq<char>, Seq<char>>::empty());
            }
        }
        self.entries.len() == 0
    }

    proof fn lemma_len(&self)
        requires
            self.wf(),
        ensures
            self@.dom().finite(),
            self@.len() == self.entries@.len(),
        decreases self.entries@.len(),
    {
        let keys = self.entries@.map_values(|e: (String, String)| e.0@);
        assert forall|i: int, j: int| 0 <= i < j < keys.len() implies keys[i] != keys[j] by {}
        keys.unique_seq_to_set();
        assert forall|k: Seq<char>| self@.dom().contains(k) <==> keys.to_set().contains(k) by {
            if self@.dom().contains(k) {
                let i = choose|i: int| self.has_key_at(k, i);
                assert(keys[i] == k);
            }
            if keys.to_set().contains(k) {
                let i = choose|i: int| 0 <= i < keys.len() && keys[i] == k;
                assert(self.has_key_at(k, i));
            }
        }
        assert(self@.dom() =~= keys.to_set());
    }

    /// Position of `key`, if present.
    fn find(&self, key: &str) -> (r: Option<usize>)
        requires
            self.wf(),
        ensures
            match r {
                Some(i) => self.has_key_at(key@, i as int),
                None => !self@.contains_key(key@),
            },
    {
        let mut i: usize = 0;
        while i < self.entries.len()
            invariant
                i <= self.entries@.len(),
                forall|j: int| 0 <= j < i ==> self.entries@[j].0@ != key@,
            decreases self.entries@.len() - i,
        {
            if same_text(self.entries[i].0.as_str(), key) {
                return Some(i);
            }
            i = i + 1;
        }
        None
    }

    /// The value stored under `key`.
    pub fn get(&self, key: &str) -> (r: Option<&String>)
        requires
            self.wf(),
        ensures
            match r {
                Some(v) => self@.contains_key(key@) && v@ == self@[key@],
                None => !self@.contains_key(key@),
            },
    {
        match self.find(key) {
            Some(i) => {
                proof {
                    self.lemma_at(i as int);
                }
                Some(&self.entries[i].1)
            },
            None => None,
        }
    }

    /// Stores `value` under `key`, replacing an earlier value.
    pub fn insert(&mut self, key: String, value: String)
        requires
            old(self).wf(),
        ensures
            final(self).wf(),
            final(self)@ == old(self)@.insert(key@, value@),
    {
        let ghost k = key@;
        let ghost v = value@;
        match self.find(key.as_str()) {
            Some(i) => {
                self.entries.set(i, (key, value));
                proof {
                    let o = old(self);
                    assert forall|x: Seq<char>| #![auto] self@.contains_key(x) <==> o@.insert(k, v).contains_key(x) by {
                        if self@.contains_key(x) {
                            let j = choose|j: int| self.has_key_at(x, j);
                            if j != i {
                                assert(o.has_key_at(x, j));
                            }
                        }
                        if o@.contains_key(x) {
                            let j = choose|j: int| o.has_key_at(x, j);
                            assert(self.has_key_at(x, j));
                        }
                        if x == k {
                            assert(self.has_key_at(x, i as int));
                        }
                    }
                    assert forall|x: Seq<char>| #![auto] self@.contains_key(x) implies self@[x] == o@.insert(k, v)[x] by {
                        let j = choose|j: int| self.has_key_at(x, j);
                        self.lemma_at(j);
                        if j != i {
                            o.lemma_at(j);
                        }
                    }
                    assert(self@ =~= o@.insert(k, v));
                }
            },
            None => {
                self.entries.push((key, value));
                proof {
                    let o = old(self);
                    let n = o.entries@.len() as int;
                    assert forall|a: int, b: int|
                        0 <= a < b < self.entries@.len() implies self.entries@[a].0@ != self.entries@[b].0@ by {
                        if b == n && self.entries@[a].0@ == k {
                            assert(o.has_key_at(k, a));
                        }
                    }
                    assert forall|x: Seq<char>| #![auto] self@.contains_key(x) <==> o@.insert(k, v).contains_key(x) by {
                        if self@.contains_key(x) {
                            let j = choose|j: int| self.has_key_at(x, j);
                            if j != n {
                                assert(o.has_key_at(x, j));
                            }
                        }
                        if o@.contains_key(x) {
                            let j = choose|j: int| o.has_key_at(x, j);
                            assert(self.has_key_at(x, j));
                        }
                        if x == k {
                            assert(self.has_key_at(x, n));
                        }
                    }
                    assert forall|x: Seq<char>| #![auto] self@.contains_key(x) implies self@[x] == o@.insert(k, v)[x] by {
                        let j = choose|j: int| self.has_key_at(x, j);
                        self.lemma_at(j);
                        if j != n {
                            o.lemma_at(j);
                        }
                    }
                    assert(self@ =~= o@.insert(k, v));
                }
            },
        }
    }

    /// Takes the value stored under `key` out, if there is one.
    pub fn remove(&mut self, key: &str) -> (r: Option<String>)
        requires
            old(self).wf(),
        ensures
            final(self).wf(),
            final(self)@ == old(self)@.remove(key@),
            match r {
                Some(v) => old(self)@.contains_key(key@) && v@ == old(self)@[key@],
                None => !old(self)@.contains_key(key@),
            },
    {
        match self.find(key) {
            Some(i) => {
                proof {
                    self.lemma_at(i as int);
                }
                let (_, v) = self.entries.remove(i);
                proof {
                    let o = old(self);
                    let k = key@;
                    assert forall|x: Seq<char>| #![auto] self@.contains_key(x) <==> o@.remove(k).contains_key(x) by {
                        if self@.contains_key(x) {
                            let j = choose|j: int| self.has_key_at(x, j);
                            if j < i {
                                assert(o.has_key_at(x, j));
                            } else {
                                assert(o.has_key_at(x, j + 1));
                            }
                        }
                        if o@.contains_key(x) && x != k {
                            let j = choose|j: int| o.has_key_at(x, j);
                            if j < i {
                                assert(self.has_key_at(x, j));
                            } else {
                                assert(self.has_key_at(x, j - 1));
                            }
                        }
                    }
                    assert forall|x: Seq<char>| #![auto] self@.contains_key(x) implies self@[x] == o@.remove(k)[x] by {
                        let j = choose|j: int| self.has_key_at(x, j);
                        self.lemma_at(j);
                        if j < i {
                            o.lemma_at(j);
                        } else {
                            o.lemma_at(j + 1);
                        }
                    }
                    assert(self@ =~= o@.remove(k));
                }
                Some(v)
            },
            None => {
                assert(self@ =~= old(self)@.remove(key@));
                None
            },
        }
    }

    /// A copy of these pairs.
    pub fn duplicate(&self) -> (r: Headers)
        requires
            self.wf(),
        ensures
            r.wf(),
            r@ == self@,
    {
        let mut entries: Vec<(String, String)> = Vec::new();
        let mut i: usize = 0;
        while i < self.entries.len()
            invariant
                i <= self.entries@.len(),
                entries@.len() == i,
                forall|j: int| 0 <= j < i ==> entries@[j].0@ == self.entries@[j].0@ && entries@[j].1@
                    == self.entries@[j].1@,
            decreases self.entries@.len() - i,
        {
            let k = self.entries[i].0.clone();
            let v = self.entries[i].1.clone();
            entries.push((k, v));
            i = i + 1;
        }
        let r = Headers { entries };
        proof {
            assert forall|k: Seq<char>, j: int| #![auto] r.has_key_at(k, j) == self.has_key_at(k, j) by {}
            assert forall|k: Seq<char>| #![auto] r@.contains_key(k) implies r@[k] == self@[k] by {
                let j = choose|j: int| r.has_key_at(k, j);
                r.lemma_at(j);
                self.lemma_at(j);
            }
            assert(r@ =~= self@);
        }
        r
    }

    /// The pair at position `i`; every pair of the map stands at one position.
    pub fn pair_at(&self, i: usize) -> (r: (&String, &String))
        requires
            i < self@.len(),
            self.wf(),
        ensures
            self@.contains_key(r.0@),
            self@[r.0@] == r.1@,
    {
        proof {
            self.lemma_len();
            self.lemma_at(i as int);
        }
        (&self.entries[i].0, &self.entries[i].1)
    }
}

/// Adds the parameter that `path[start..end]` carries, if it carries one.
fn add_segment(h: &mut Headers, path: &str, start: usize, end: usize)
    requires
        old(h).wf(),
        start <= end <= path@.len(),
    ensures
        final(h).wf(),
        ({
            let seg = path@.subrange(start as int, end as int);
            final(h)@ == if kept(seg) {
                old(h)@.insert(key_of(seg), value_of(seg))
            } else {
                old(h)@
            }
        }),
{
    let ghost seg = path@.subrange(start as int, end as int);
    if start == end {
        return;
    }
    if end == start + 1 && path.get_char(start) == '/' {
        assert(seg =~= seq!['/']);
        return;
    }
    assert(seg != seq!['/']) by {
        if end == start + 1 {
            assert(seg[0] == path@[start as int]);
        }
    }
    let mut j: usize = start;
    while j < end
        invariant
            start <= j <= end,
            end <= path@.len(),
            forall|k: int| start <= k < j ==> path@[k] != '=',
        ensures
            start <= j <= end,
            forall|k: int| start <= k < j ==> path@[k] != '=',
            j < end ==> path@[j as int] == '=',
        decreases end - j,
    {
        if path.get_char(j) == '=' {
            break;
        }
        j = j + 1;
    }
    proof {
        assert(seg.len() == end - start);
        assert forall|k: int| 0 <= k < j - start implies seg[k] != '=' by {
            assert(seg[k] == path@[start + k]);
        }
        if j < end {
            assert(seg[j - start] == path@[j as int]);
        }
        lemma_eq_pos(seg, j - start);
    }
    let key = String::from_str(path.substring_char(start, j));
    assert(key@ =~= key_of(seg));
    let value = if j < end {
        String::from_str(path.substring_char(j + 1, end))
    } else {
        String::new()
    };
    assert(value@ =~= value_of(seg));
    h.insert(key, value);
}

/// Reads the `;key=value` parameters of a URL path. Segments that are empty or a
/// bare `/` are skipped, a segment without `=` has an empty value, and a later
/// key replaces an earlier one. Without any parameter the result is `None`.
pub fn parse_headers(path: &str) -> (r: Option<Headers>)
    ensures
        match r {
            None => headers_of(path@) == Map::<Seq<char>, Seq<char>>::empty(),
            Some(h) => h.wf() && h@ == headers_of(path@) && h@ != Map::<
                Seq<char>,
                Seq<char>,
            >::empty(),
        },
{
    let n = path.unicode_len();
    let mut h = Headers::new();
    let mut seg_start: usize = 0;
    let mut i: usize = 0;
    proof {
        assert(path@.take(0) =~= Seq::<char>::empty());
        assert(split_semis(Seq::<char>::empty()).drop_last() =~= Seq::<Seq<char>>::empty());
    }
    while i < n
        invariant
            n == path@.len(),
            seg_start <= i <= n,
            h.wf(),
            split_semis(path@.take(i as int)).len() >= 1,
            split_semis(path@.take(i as int)).last() == path@.subrange(seg_start as int, i as int),
            h@ == header_map(split_semis(path@.take(i as int)).drop_last()),
        decreases n - i,
    {
        let ghost before = split_semis(path@.take(i as int));
        let ghost p1 = path@.take(i + 1);
        assert(p1.drop_last() =~= path@.take(i as int));
        assert(p1.last() == path@[i as int]);
        if path.get_char(i) == ';' {
            add_segment(&mut h, path, seg_start, i);
            proof {
                assert(split_semis(p1) == before.push(Seq::empty()));
                assert(split_semis(p1).drop_last() =~= before);
                assert(header_map(before) == if kept(before.last()) {
                    header_map(before.drop_last()).insert(key_of(before.last()), value_of(before.last()))
                } else {
                    header_map(before.drop_last())
                });
                assert(path@.subrange(i + 1, i + 1) =~= Seq::<char>::empty());
            }
            seg_start = i + 1;
        } else {
            proof {
                let after = split_semis(p1);
                assert(after == before.update(before.len() - 1, before.last().push(path@[i as int])));
                assert(after.drop_last() =~= before.drop_last());
                assert(after.last() =~= path@.subrange(seg_start as int, i + 1));
            }
        }
        i = i + 1;
    }
    add_segment(&mut h, path, seg_start, n);
    proof {
        let all = split_semis(path@);
        assert(path@.take(n as int) =~= path@);
        lemma_split_nonempty(path@);
        assert(header_map(all) == if kept(all.last()) {
            header_map(all.drop_last()).insert(key_of(all.last()), value_of(all.last()))
        } else {
            header_map(all.drop_last())
        });
    }
    if h.is_empty() {
        None
    } else {
        Some(h)
    }
}

} // verus!
