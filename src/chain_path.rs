use vstd::prelude::*;

use crate::key_index::{KeyIndex, HARDENED_KEY_START_INDEX};

verus! {

pub const MASTER_SYMBOL: char = 'm';

pub const SEPARATOR: char = '/';

#[derive(Clone, Copy, Debug, PartialEq, Eq, Structural)]
pub enum ChainPathError {
    Invalid,
    Blank,
    KeyIndexOutOfRange,
}

/// One step of a chain path: the root, or a child index.
#[derive(Clone, Copy, Debug, PartialEq, Eq, Structural)]
pub enum SubPath {
    Root,
    Child(KeyIndex),
}

/// Offset of the first separator in `s`, or its length when there is none.
pub open spec fn separator_offset(s: Seq<char>) -> nat
    decreases s.len(),
{
    if s.len() == 0 {
        0
    } else if s[0] == SEPARATOR {
        0
    } else {
        1 + separator_offset(s.drop_first())
    }
}

/// The segments of `s` between separators; there is always at least one.
pub open spec fn segments(s: Seq<char>) -> Seq<Seq<char>>
    decreases s.len(),
{
    let j = separator_offset(s) as int;
    if j < s.len() {
        seq![s.take(j)] + segments(s.skip(j + 1))
    } else {
        seq![s]
    }
}

pub open spec fn is_digit(c: char) -> bool {
    '0' <= c && c <= '9'
}

pub open spec fn is_hardened_marker(c: char) -> bool {
    c == 'H' || c == '\''
}

pub open spec fn all_digits(s: Seq<char>) -> bool {
    forall|k: int| 0 <= k < s.len() ==> is_digit(#[trigger] s[k])
}

pub open spec fn digit_value(c: char) -> nat {
    ((c as u32) - ('0' as u32)) as nat
}

/// The value of a decimal numeral.
pub open spec fn numeral_value(s: Seq<char>) -> nat
    decreases s.len(),
{
    if s.len() == 0 {
        0
    } else {
        numeral_value(s.drop_last()) * 10 + digit_value(s.last())
    }
}

/// What one segment of a path denotes.
pub open spec fn parse_step(seg: Seq<char>) -> Result<SubPath, ChainPathError> {
    if seg == seq![MASTER_SYMBOL] {
        Ok(SubPath::Root)
    } else if seg.len() == 0 {
        Err(ChainPathError::Blank)
    } else if is_hardened_marker(seg.last()) {
        if seg.len() > 1 && all_digits(seg.drop_last()) {
            Err(ChainPathError::KeyIndexOutOfRange)
        } else {
            Err(ChainPathError::Invalid)
        }
    } else if !all_digits(seg) {
        Err(ChainPathError::Invalid)
    } else if numeral_value(seg) < HARDENED_KEY_START_INDEX {
        Ok(SubPath::Child(KeyIndex::Normal(numeral_value(seg) as u32)))
    } else {
        Err(ChainPathError::KeyIndexOutOfRange)
    }
}

/// The steps of a path, one for each segment, from the root on.
pub open spec fn steps_of(s: Seq<char>) -> Seq<Result<SubPath, ChainPathError>> {
    segments(s).map_values(|seg: Seq<char>| parse_step(seg))
}

proof fn lemma_separator_offset(s: Seq<char>, j: int)
    requires
        0 <= j <= s.len(),
        forall|k: int| 0 <= k < j ==> s[k] != SEPARATOR,
        j == s.len() || s[j] == SEPARATOR,
    ensures
        separator_offset(s) == j,
    decreases j,
{
    if j > 0 {
        lemma_separator_offset(s.drop_first(), j - 1);
    }
}

proof fn lemma_numeral_grows(s: Seq<char>)
    requires
        s.len() > 0,
    ensures
        numeral_value(s) >= numeral_value(s.drop_last()),
{
}

/// ChainPath is used to describe BIP-32 KeyChain path.
#[derive(Debug, PartialEq, Eq)]
pub struct ChainPath {
    path: String,
}

impl View for ChainPath {
    type V = Seq<char>;

    closed spec fn view(&self) -> Seq<char> {
        self.path@
    }
}

impl ChainPath {
    pub fn new(path: &str) -> (r: Self)
        ensures
            r@ == path@,
    {
        ChainPath { path: path.to_string() }
    }

    /// An iterator over the steps of the path, from Root to child keys.
    pub fn iter(&self) -> (r: Iter)
        ensures
            r.wf(),
            r.remaining() == steps_of(self@),
    {
        let s = self.path.as_str();
        let n = s.unicode_len();
        let mut chars: Vec<char> = Vec::new();
        let mut k: usize = 0;
        while k < n
            invariant
                n == s@.len(),
                k <= n,
                chars@ == s@.take(k as int),
            decreases n - k,
        {
            chars.push(s.get_char(k));
            k = k + 1;
            assert(chars@ =~= s@.take(k as int));
        }
        assert(chars@ =~= s@);
        assert(chars@.skip(0) =~= chars@);
        Iter { chars, pos: 0, done: false }
    }

    pub fn into_string(self) -> (r: String)
        ensures
            r@ == self@,
    {
        self.path
    }

    /// Whether the path has at most 256 segments, the root included: at most 255
    /// child steps, the deepest a derivation record can count.
    pub fn fits_depth_limit(&self) -> (r: bool)
        ensures
            r == (segments(self@).len() <= 256),
    {
        let mut iter = self.iter();
        let mut count: usize = 0;
        loop
            invariant
                iter.wf(),
                count <= 256,
                count + iter.remaining().len() == steps_of(self@).len(),
            decreases iter.remaining().len(),
        {
            match iter.next() {
                None => {
                    return true;
                },
                Some(_) => {
                    if count == 256 {
                        return false;
                    }
                    count = count + 1;
                },
            }
        }
    }

    /// The path as text.
    pub fn to_string(&self) -> (r: &str)
        ensures
            r@ == self@,
    {
        self.path.as_str()
    }
}

impl From<String> for ChainPath {
    fn from(path: String) -> (r: ChainPath) {
        ChainPath { path }
    }
}

impl vstd::std_specs::convert::FromSpecImpl<String> for ChainPath {
    open spec fn obeys_from_spec() -> bool {
        true
    }

    closed spec fn from_spec(path: String) -> ChainPath {
        ChainPath { path }
    }
}

/// Walks the steps of a chain path; each call of `next` parses one segment.
pub struct Iter {
    chars: Vec<char>,
    pos: usize,
    done: bool,
}

impl Iter {
    pub closed spec fn wf(&self) -> bool {
        self.pos <= self.chars@.len()
    }

    /// The steps that are still to come.
    pub closed spec fn remaining(&self) -> Seq<Result<SubPath, ChainPathError>> {
        if self.done {
            Seq::empty()
        } else {
            steps_of(self.chars@.skip(self.pos as int))
        }
    }

    pub fn next(&mut self) -> (r: Option<Result<SubPath, ChainPathError>>)
        requires
            old(self).wf(),
        ensures
            final(self).wf(),
            old(self).remaining().len() == 0 ==> r is None && final(self).remaining() == old(
                self,
            ).remaining(),
            old(self).remaining().len() > 0 ==> r == Some(old(self).remaining()[0])
                && final(self).remaining() == old(self).remaining().drop_first(),
    {
        if self.done {
            return None;
        }
        let ghost rest = self.chars@.skip(self.pos as int);
        let n = self.chars.len();
        let mut j: usize = self.pos;
        while j < n && self.chars[j] != SEPARATOR
            invariant
                self.pos <= j <= n,
                n == self.chars@.len(),
                forall|k: int| self.pos <= k < j ==> self.chars@[k] != SEPARATOR,
            decreases n - j,
        {
            j = j + 1;
        }
        proof {
            lemma_separator_offset(rest, j - self.pos);
            assert(rest.take(j - self.pos) =~= self.chars@.subrange(self.pos as int, j as int));
        }
        let step = parse_segment(&self.chars, self.pos, j);
        if j == n {
            self.done = true;
            proof {
                assert(segments(rest) == seq![rest]);
                assert(rest =~= self.chars@.subrange(old(self).pos as int, j as int));
                assert(steps_of(rest).drop_first() =~= Seq::empty());
            }
        } else {
            proof {
                let tail = rest.skip(j - self.pos + 1);
                assert(tail =~= self.chars@.skip(j + 1));
                assert(segments(rest) == seq![rest.take(j - self.pos)] + segments(tail));
                assert(steps_of(rest).drop_first() =~= steps_of(tail));
            }
            self.pos = j + 1;
        }
        Some(step)
    }
}

/// Parses the segment `chars[from..to]`.
fn parse_segment(chars: &Vec<char>, from: usize, to: usize) -> (r: Result<SubPath, ChainPathError>)
    requires
        from <= to <= chars@.len(),
    ensures
        r == parse_step(chars@.subrange(from as int, to as int)),
{
    let ghost seg = chars@.subrange(from as int, to as int);
    if to - from == 1 && chars[from] == MASTER_SYMBOL {
        assert(seg =~= seq![MASTER_SYMBOL]);
        return Ok(SubPath::Root);
    }
    assert(seg != seq![MASTER_SYMBOL]) by {
        if seg == seq![MASTER_SYMBOL] {
            assert(seg.len() == 1 && seg[0] == chars@[from as int]);
        }
    }
    if to == from {
        return Err(ChainPathError::Blank);
    }
    let last = chars[to - 1];
    let hardened = last == 'H' || last == '\'';
    let end: usize = if hardened { to - 1 } else { to };
    let mut k: usize = from;
    let mut value: u64 = 0;
    let mut large = false;
    while k < end
        invariant
            from <= k <= end,
            from < to <= chars@.len(),
            seg == chars@.subrange(from as int, to as int),
            seg != seq![MASTER_SYMBOL],
            last == chars@[to - 1],
            hardened == is_hardened_marker(last),
            hardened ==> end == to - 1,
            !hardened ==> end == to,
            all_digits(chars@.subrange(from as int, k as int)),
            !large ==> value == numeral_value(chars@.subrange(from as int, k as int)) && value
                < HARDENED_KEY_START_INDEX,
            large ==> numeral_value(chars@.subrange(from as int, k as int))
                >= HARDENED_KEY_START_INDEX,
        decreases end - k,
    {
        let c = chars[k];
        if !('0' <= c && c <= '9') {
            proof {
                let part = chars@.subrange(from as int, end as int);
                assert(part[k - from] == c);
            }
            assert(!all_digits(chars@.subrange(from as int, end as int)));
            assert(seg.last() == last);
            if hardened {
                assert(seg.drop_last() =~= chars@.subrange(from as int, end as int));
            } else {
                assert(seg =~= chars@.subrange(from as int, end as int));
            }
            return Err(ChainPathError::Invalid);
        }
        let ghost before = chars@.subrange(from as int, k as int);
        let ghost after = chars@.subrange(from as int, k + 1);
        proof {
            assert(after.drop_last() =~= before);
            assert(after.last() == c);
            assert forall|i: int| 0 <= i < after.len() implies is_digit(#[trigger] after[i]) by {
                if i < before.len() {
                    assert(after[i] == before[i]);
                }
            }
            lemma_numeral_grows(after);
        }
        if !large {
            let d = (c as u32 - '0' as u32) as u64;
            let next = value * 10 + d;
            if next >= HARDENED_KEY_START_INDEX as u64 {
                large = true;
            } else {
                value = next;
            }
        }
        k = k + 1;
    }
    if hardened {
        assert(seg.last() == last);
        assert(seg.drop_last() =~= chars@.subrange(from as int, end as int));
        if end == from {
            return Err(ChainPathError::Invalid);
        }
        return Err(ChainPathError::KeyIndexOutOfRange);
    }
    assert(seg =~= chars@.subrange(from as int, end as int));
    assert(seg.last() == last);
    if large {
        Err(ChainPathError::KeyIndexOutOfRange)
    } else {
        Ok(SubPath::Child(KeyIndex::Normal(value as u32)))
    }
}

} // verus!
