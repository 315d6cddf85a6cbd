//! Byte-level line handling: whitespace trimming and the logout command.
//!
//! The protocol is newline-delimited text; a line is a byte vector. The one
//! control line is the logout command, recognised after trimming surrounding
//! whitespace.

use vstd::prelude::*;

verus! {

/// ASCII whitespace: space, tab, line feed, carriage return.
pub open spec fn is_space(b: u8) -> bool {
    b == 32 || b == 9 || b == 10 || b == 13
}

/// The line with leading whitespace removed.
pub open spec fn trim_front(s: Seq<u8>) -> Seq<u8>
    decreases s.len(),
{
    if s.len() > 0 && is_space(s[0]) {
        trim_front(s.drop_first())
    } else {
        s
    }
}

/// The line with trailing whitespace removed.
pub open spec fn trim_back(s: Seq<u8>) -> Seq<u8>
    decreases s.len(),
{
    if s.len() > 0 && is_space(s.last()) {
        trim_back(s.drop_last())
    } else {
        s
    }
}

/// The line with surrounding whitespace removed.
pub open spec fn trimmed(s: Seq<u8>) -> Seq<u8> {
    trim_back(trim_front(s))
}

proof fn lemma_trim_front_at(s: Seq<u8>, i: int)
    requires
        0 <= i <= s.len(),
        forall|k: int| 0 <= k < i ==> is_space(s[k]),
        i == s.len() || !is_space(s[i]),
    ensures
        trim_front(s) == s.subrange(i, s.len() as int),
    decreases i,
{
    if i == 0 {
        assert(s.subrange(0, s.len() as int) =~= s);
    } else {
        let t = s.drop_first();
        assert(forall|k: int| 0 <= k < i - 1 ==> is_space(#[trigger] t[k]));
        lemma_trim_front_at(t, i - 1);
        assert(t.subrange(i - 1, t.len() as int) =~= s.subrange(i, s.len() as int));
    }
}

proof fn lemma_trim_back_at(s: Seq<u8>, j: int)
    requires
        0 <= j <= s.len(),
        forall|k: int| j <= k < s.len() ==> is_space(s[k]),
        j == 0 || !is_space(s[j - 1]),
    ensures
        trim_back(s) == s.subrange(0, j),
    decreases s.len() - j,
{
    if j == s.len() {
        assert(s.subrange(0, j) =~= s);
    } else {
        let t = s.drop_last();
        assert(is_space(s.last()));
        assert(forall|k: int| j <= k < t.len() ==> is_space(#[trigger] t[k]));
        lemma_trim_back_at(t, j);
        assert(t.subrange(0, j) =~= s.subrange(0, j));
    }
}

fn is_space_byte(b: u8) -> (r: bool)
    ensures
        r == is_space(b),
{
    b == 32 || b == 9 || b == 10 || b == 13
}

/// Copy a byte line.
pub fn copy_bytes(v: &Vec<u8>) -> (r: Vec<u8>)
    ensures
        r@ == v@,
{
    let mut r: Vec<u8> = Vec::new();
    let mut k: usize = 0;
    while k < v.len()
        invariant
            k <= v.len(),
            r@ == v@.subrange(0, k as int),
        decreases v.len() - k,
    {
        r.push(v[k]);
        k = k + 1;
        proof {
            assert(r@ =~= v@.subrange(0, k as int));
        }
    }
    proof {
        assert(v@.subrange(0, v.len() as int) =~= v@);
    }
    r
}

/// Remove surrounding ASCII whitespace from a line.
pub fn trim(line: &Vec<u8>) -> (r: Vec<u8>)
    ensures
        r@ == trimmed(line@),
{
    let n: usize = line.len();
    let mut i: usize = 0;
    loop
        invariant
            i <= n,
            n == line@.len(),
            forall|k: int| 0 <= k < i ==> is_space(#[trigger] line@[k]),
        ensures
            i <= n,
            forall|k: int| 0 <= k < i ==> is_space(#[trigger] line@[k]),
            i == n || !is_space(line@[i as int]),
        decreases n - i,
    {
        if i == n {
            break;
        }
        if !is_space_byte(line[i]) {
            break;
        }
        i = i + 1;
    }
    if i == n {
        proof {
            lemma_trim_front_at(line@, n as int);
            assert(line@.subrange(n as int, n as int) =~= Seq::<u8>::empty());
            assert(trim_back(Seq::<u8>::empty()) =~= Seq::<u8>::empty());
        }
        let r: Vec<u8> = Vec::new();
        return r;
    }
    let mut j: usize = n;
    loop
        invariant
            i < j <= n,
            n == line@.len(),
            !is_space(line@[i as int]),
            forall|k: int| j <= k < n ==> is_space(#[trigger] line@[k]),
        ensures
            i < j <= n,
            !is_space(line@[(j - 1) as int]),
            forall|k: int| j <= k < n ==> is_space(#[trigger] line@[k]),
        decreases j,
    {
        if !is_space_byte(line[j - 1]) {
            break;
        }
        j = j - 1;
    }
    let mut r: Vec<u8> = Vec::new();
    let mut k: usize = i;
    while k < j
        invariant
            i <= k <= j <= n,
            n == line@.len(),
            r@ == line@.subrange(i as int, k as int),
        decreases j - k,
    {
        r.push(line[k]);
        k = k + 1;
        proof {
            assert(r@ =~= line@.subrange(i as int, k as int));
        }
    }
    proof {
        lemma_trim_front_at(line@, i as int);
        let f = line@.subrange(i as int, n as int);
        assert(forall|k: int| j - i <= k < f.len() ==> is_space(#[trigger] f[k]));
        lemma_trim_back_at(f, j - i);
        assert(f.subrange(0, j - i) =~= line@.subrange(i as int, j as int));
    }
    r
}

/// The logout command: the exact line `IWANTEXIT` once surrounding whitespace
/// is removed.
pub open spec fn logout_command() -> Seq<u8> {
    seq![73u8, 87u8, 65u8, 78u8, 84u8, 69u8, 88u8, 73u8, 84u8]
}

/// Whether a received line is a client-initiated graceful logout.
pub open spec fn is_logout_line(s: Seq<u8>) -> bool {
    trimmed(s) == logout_command()
}

/// Decide whether a received line is the logout command.
pub fn is_logout(line: &Vec<u8>) -> (r: bool)
    ensures
        r == is_logout_line(line@),
{
    let t = trim(line);
    if t.len() != 9 {
        return false;
    }
    let ok = t[0] == 73 && t[1] == 87 && t[2] == 65 && t[3] == 78 && t[4] == 84 && t[5] == 69
        && t[6] == 88 && t[7] == 73 && t[8] == 84;
    proof {
        if ok {
            assert(t@ =~= logout_command());
        } else {
            assert(t@ != logout_command());
        }
    }
    ok
}

} // verus!
