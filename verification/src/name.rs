//! The naming rule: which directory name belongs to which test identity, and
//! why two identities written as Rust writes them never share one.

use vstd::prelude::*;

verus! {

/// `s` with every `::`, found from left to right, replaced by one hyphen.
/// A colon that has no partner stays: `:::` becomes `-:`.
pub open spec fn replace_separators(s: Seq<char>) -> Seq<char>
    decreases s.len(),
{
    if s.len() < 2 {
        s
    } else if s[0] == ':' && s[1] == ':' {
        seq!['-'] + replace_separators(s.skip(2))
    } else {
        seq![s[0]] + replace_separators(s.skip(1))
    }
}

/// The directory name of the test `funcname` in module `modpath`.
pub open spec fn test_dir_name(modpath: Seq<char>, funcname: Seq<char>) -> Seq<char> {
    replace_separators(modpath) + seq!['-'] + funcname
}

/// No character of `s` is a hyphen. Module paths and function names as Rust
/// writes them are of this kind.
pub open spec fn hyphen_free(s: Seq<char>) -> bool {
    forall|i: int| 0 <= i < s.len() ==> s[i] != '-'
}

/// `s` with every hyphen replaced by `::`.
pub open spec fn restore_separators(s: Seq<char>) -> Seq<char>
    decreases s.len(),
{
    if s.len() == 0 {
        s
    } else if s[0] == '-' {
        seq![':', ':'] + restore_separators(s.skip(1))
    } else {
        seq![s[0]] + restore_separators(s.skip(1))
    }
}

/// What is still to be emitted for the part of a module path that has been
/// read: a colon that may yet turn out to be the first half of a separator.
pub open spec fn held_back(pending: bool) -> Seq<char> {
    if pending {
        seq![':']
    } else {
        Seq::empty()
    }
}

/// A character other than a colon is kept as it is.
proof fn lemma_replace_plain(c: char, rest: Seq<char>)
    requires
        c != ':',
    ensures
        replace_separators(seq![c] + rest) == seq![c] + replace_separators(rest),
{
    let s = seq![c] + rest;
    if s.len() < 2 {
        assert(rest == Seq::<char>::empty());
        assert(s == seq![c] + replace_separators(rest));
    } else {
        assert(s.skip(1) == rest);
    }
}

/// Reading one more character `c` in front of `rest` either completes a
/// separator, releases the colon held back, or holds `c` back.
pub proof fn lemma_replace_step(pending: bool, c: char, rest: Seq<char>)
    ensures
        replace_separators(held_back(pending) + seq![c] + rest) == if pending && c == ':' {
            seq!['-'] + replace_separators(rest)
        } else if pending {
            seq![':', c] + replace_separators(rest)
        } else if c == ':' {
            replace_separators(held_back(true) + rest)
        } else {
            seq![c] + replace_separators(rest)
        },
{
    let s = held_back(pending) + seq![c] + rest;
    let tail = replace_separators(rest);
    if pending {
        assert(s[0] == ':' && s[1] == c);
        if c == ':' {
            assert(s.skip(2) == rest);
        } else {
            assert(s.skip(1) == seq![c] + rest);
            lemma_replace_plain(c, rest);
            assert(seq![':'] + (seq![c] + tail) == seq![':', c] + tail);
        }
    } else if c == ':' {
        assert(s == held_back(true) + rest);
    } else {
        assert(s == seq![c] + rest);
        lemma_replace_plain(c, rest);
    }
}

/// Text without a hyphen has no separator to restore.
proof fn lemma_restore_hyphen_free(s: Seq<char>)
    requires
        hyphen_free(s),
    ensures
        restore_separators(s) == s,
    decreases s.len(),
{
    if s.len() > 0 {
        lemma_restore_hyphen_free(s.skip(1));
        assert(seq![s[0]] + s.skip(1) == s);
    }
}

/// Replacing the separators of text without a hyphen loses nothing: putting
/// `::` back for every hyphen gives the text again.
pub proof fn lemma_restore_replaced(s: Seq<char>)
    requires
        hyphen_free(s),
    ensures
        restore_separators(replace_separators(s)) == s,
    decreases s.len(),
{
    if s.len() < 2 {
        lemma_restore_hyphen_free(s);
    } else if s[0] == ':' && s[1] == ':' {
        let tail = replace_separators(s.skip(2));
        lemma_restore_replaced(s.skip(2));
        assert((seq!['-'] + tail).skip(1) == tail);
        assert(seq![':', ':'] + s.skip(2) == s);
    } else {
        let tail = replace_separators(s.skip(1));
        lemma_restore_replaced(s.skip(1));
        assert((seq![s[0]] + tail).skip(1) == tail);
        assert(seq![s[0]] + s.skip(1) == s);
    }
}

/// A name falls apart at its last hyphen in one way only: where what follows
/// the hyphen holds none, what stands before and after it is determined.
pub proof fn lemma_split_at_last_hyphen(a: Seq<char>, f: Seq<char>, b: Seq<char>, g: Seq<char>)
    requires
        hyphen_free(f),
        hyphen_free(g),
        a + seq!['-'] + f == b + seq!['-'] + g,
    ensures
        a == b,
        f == g,
{
    let whole = a + seq!['-'] + f;
    let other = b + seq!['-'] + g;
    assert(whole.len() == a.len() + 1 + f.len());
    assert(other.len() == b.len() + 1 + g.len());
    assert(whole[a.len() as int] == '-');
    assert(other[b.len() as int] == '-');
    if a.len() < b.len() {
        let k = b.len() - a.len() - 1;
        assert(whole[b.len() as int] == f[k]);
        assert(false);
    }
    if b.len() < a.len() {
        let k = a.len() - b.len() - 1;
        assert(other[a.len() as int] == g[k]);
        assert(false);
    }
    assert(a == whole.subrange(0, a.len() as int));
    assert(b == other.subrange(0, b.len() as int));
    assert(f == whole.skip(a.len() as int + 1));
    assert(g == other.skip(b.len() as int + 1));
}

/// Two identities written without hyphens that get the same directory name
/// are the same identity: for module paths and function names as Rust writes
/// them the naming rule never lets two tests share a directory.
pub proof fn lemma_names_do_not_collide(
    modpath1: Seq<char>,
    funcname1: Seq<char>,
    modpath2: Seq<char>,
    funcname2: Seq<char>,
)
    requires
        hyphen_free(modpath1),
        hyphen_free(funcname1),
        hyphen_free(modpath2),
        hyphen_free(funcname2),
        test_dir_name(modpath1, funcname1) == test_dir_name(modpath2, funcname2),
    ensures
        modpath1 == modpath2,
        funcname1 == funcname2,
{
    lemma_split_at_last_hyphen(
        replace_separators(modpath1),
        funcname1,
        replace_separators(modpath2),
        funcname2,
    );
    lemma_restore_replaced(modpath1);
    lemma_restore_replaced(modpath2);
}

} // verus!
