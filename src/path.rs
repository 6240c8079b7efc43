use vstd::prelude::*;

verus! {

/// The index of the first `/` in `p` at or after `i`, or `p.len()` where
/// there is none.
pub open spec fn next_slash(p: Seq<char>, i: nat) -> nat
    decreases p.len() - i,
{
    if i >= p.len() {
        p.len()
    } else if p[i as int] == '/' {
        i
    } else {
        next_slash(p, i + 1)
    }
}

pub proof fn lemma_next_slash_bounds(p: Seq<char>, i: nat)
    requires
        i <= p.len(),
    ensures
        i <= next_slash(p, i) <= p.len(),
        next_slash(p, i) < p.len() ==> p[next_slash(p, i) as int] == '/',
    decreases p.len() - i,
{
    if i < p.len() && p[i as int] != '/' {
        lemma_next_slash_bounds(p, i + 1);
    }
}

/// The `k`-th of the `/`-separated pieces of `p` counted from the piece that
/// starts at index `i`.
pub open spec fn piece_from(p: Seq<char>, i: nat, k: nat) -> Option<Seq<char>>
    decreases p.len() - i, k
    via piece_from_decreases
{
    if i > p.len() {
        None
    } else {
        let e = next_slash(p, i);
        if k == 0 {
            Some(p.subrange(i as int, e as int))
        } else if e < p.len() {
            piece_from(p, e + 1, (k - 1) as nat)
        } else {
            None
        }
    }
}

#[via_fn]
proof fn piece_from_decreases(p: Seq<char>, i: nat, k: nat) {
    if i <= p.len() {
        lemma_next_slash_bounds(p, i);
    }
}

/// The `k`-th piece of `p` split at every `/`, the piece before the first
/// `/` not counted: for `/user/name`, piece 0 is `user` and piece 1 is
/// `name`; a path with no `/` has no pieces.
pub open spec fn path_piece(p: Seq<char>, k: nat) -> Option<Seq<char>> {
    let e = next_slash(p, 0);
    if e < p.len() {
        piece_from(p, e + 1, k)
    } else {
        None
    }
}

pub open spec fn opt_str_view(o: Option<&str>) -> Option<Seq<char>> {
    match o {
        Some(s) => Some(s@),
        None => None,
    }
}

/// Finds the first `/` in `p` at or after `i`.
fn find_slash(p: &str, len: usize, i: usize) -> (e: usize)
    requires
        len == p@.len(),
        i <= len,
    ensures
        e == next_slash(p@, i as nat),
{
    let mut j: usize = i;
    while j < len
        invariant
            len == p@.len(),
            i <= j <= len,
            next_slash(p@, j as nat) == next_slash(p@, i as nat),
        decreases len - j,
    {
        if p.get_char(j) == '/' {
            return j;
        }
        j = j + 1;
    }
    j
}

/// The `k`-th piece of `p` after its first `/`.
pub fn piece(p: &str, k: usize) -> (r: Option<&str>)
    ensures
        opt_str_view(r) == path_piece(p@, k as nat),
{
    let len = p.unicode_len();
    let first = find_slash(p, len, 0);
    proof {
        lemma_next_slash_bounds(p@, 0);
    }
    if first == len {
        return None;
    }
    let mut start: usize = first + 1;
    let mut left: usize = k;
    while left > 0
        invariant
            len == p@.len(),
            start <= len,
            piece_from(p@, start as nat, left as nat) == path_piece(p@, k as nat),
        decreases left,
    {
        let e = find_slash(p, len, start);
        proof {
            lemma_next_slash_bounds(p@, start as nat);
        }
        if e == len {
            return None;
        }
        start = e + 1;
        left = left - 1;
    }
    let e = find_slash(p, len, start);
    proof {
        lemma_next_slash_bounds(p@, start as nat);
    }
    Some(p.substring_char(start, e))
}

} // verus!
