//! The renderer's command line: splitting the user's flag string, draft mode,
//! and where the renderer is looked for.

use vstd::prelude::*;
use crate::jobs::views;

verus! {

/// The scale that draft mode forces.
pub const DRAFT_SCALE: &'static str = "1";

/// Install locations and command names tried, in order, after a path the
/// user gave.
pub const MACOS_BINARY: &'static str = "/Applications/draw.io.app/Contents/MacOS//draw.io";
pub const GENERIC_BINARY: &'static str = "drawio";
pub const GENERIC_BINARY_DOTTED: &'static str = "draw.io";

/// The pieces of `s` between single spaces; empty pieces are kept, so a
/// string has one piece more than it has spaces.
pub open spec fn split_spaces(s: Seq<char>) -> Seq<Seq<char>>
    decreases s.len(),
{
    if s.len() == 0 {
        seq![Seq::empty()]
    } else {
        let p = split_spaces(s.drop_last());
        if s.last() == ' ' {
            p.push(Seq::empty())
        } else {
            p.update(p.len() - 1, p.last().push(s.last()))
        }
    }
}

proof fn lemma_split_nonempty(s: Seq<char>)
    ensures
        split_spaces(s).len() >= 1,
    decreases s.len(),
{
    if s.len() > 0 {
        lemma_split_nonempty(s.drop_last());
    }
}

/// Splits the user's renderer flags at each space.
pub fn split_build_args(s: &str) -> (r: Vec<String>)
    ensures
        views(r@) == split_spaces(s@),
{
    let n = s.unicode_len();
    let mut pieces: Vec<String> = Vec::new();
    let mut start: usize = 0;
    let mut i: usize = 0;
    assert(views(pieces@) =~= Seq::empty());
    assert(s@.subrange(0, 0) =~= Seq::<char>::empty());
    assert(split_spaces(s@.take(0)) =~= views(pieces@).push(s@.subrange(0, 0)));
    while i < n
        invariant
            n == s@.len(),
            start <= i <= n,
            split_spaces(s@.take(i as int)) == views(pieces@).push(s@.subrange(start as int, i as int)),
        decreases n - i,
    {
        proof {
            lemma_split_nonempty(s@.take(i as int));
            assert(s@.take(i + 1).drop_last() =~= s@.take(i as int));
        }
        let c = s.get_char(i);
        let ghost p = split_spaces(s@.take(i as int));
        assert(s@.take(i + 1).last() == c);
        assert(split_spaces(s@.take(i + 1)) == if c == ' ' {
            p.push(Seq::empty())
        } else {
            p.update(p.len() - 1, p.last().push(c))
        });
        if c == ' ' {
            let piece = s.substring_char(start, i);
            let ghost before = pieces@;
            pieces.push(String::from_str(piece));
            start = i + 1;
            assert(views(pieces@) =~= views(before).push(piece@));
            assert(s@.subrange(start as int, i + 1) =~= Seq::<char>::empty());
            assert(split_spaces(s@.take(i + 1)) =~= views(pieces@).push(
                s@.subrange(start as int, i + 1),
            ));
        } else {
            assert(p.last().push(c) =~= s@.subrange(start as int, i + 1));
            assert(split_spaces(s@.take(i + 1)) =~= views(pieces@).push(
                s@.subrange(start as int, i + 1),
            ));
        }
        i = i + 1;
    }
    let last = s.substring_char(start, n);
    let ghost before = pieces@;
    pieces.push(String::from_str(last));
    assert(s@.take(n as int) =~= s@);
    assert(views(pieces@) =~= views(before).push(last@));
    assert(views(pieces@) =~= split_spaces(s@));
    pieces
}


/// Why draft mode could not be applied.
#[derive(Clone, Copy, Debug, PartialEq, Eq, Structural)]
pub enum DraftError {
    /// The scale flag is the last flag, with no value after it.
    MissingScaleValue,
}

/// Whether a flag sets the scale.
pub open spec fn is_scale_flag(f: Seq<char>) -> bool {
    f == "-s"@ || f == "--scale"@
}

/// The index of the first scale flag.
pub open spec fn first_scale_flag(flags: Seq<Seq<char>>) -> Option<int>
    decreases flags.len(),
{
    if flags.len() == 0 {
        None
    } else {
        match first_scale_flag(flags.drop_last()) {
            Some(i) => Some(i),
            None => if is_scale_flag(flags.last()) {
                Some(flags.len() - 1)
            } else {
                None
            },
        }
    }
}

/// Draft mode: the value after the first scale flag becomes the draft
/// scale. Without a scale flag the flags stay as they are; a scale flag
/// without a value is an error, and the flags then stay as they are too.
pub fn apply_draft_scale(flags: &mut Vec<String>) -> (r: Result<(), DraftError>)
    ensures
        match first_scale_flag(views(old(flags)@)) {
            None => r is Ok && final(flags)@ == old(flags)@,
            Some(i) => if i + 1 < old(flags)@.len() {
                r is Ok && final(flags)@.len() == old(flags)@.len() && views(final(flags)@) == views(
                    old(flags)@,
                ).update(i + 1, DRAFT_SCALE@)
            } else {
                r == Err::<(), DraftError>(DraftError::MissingScaleValue) && final(flags)@ == old(
                    flags,
                )@
            },
        },
{
    let short = String::from_str("-s");
    let long = String::from_str("--scale");
    let mut i: usize = 0;
    while i < flags.len()
        invariant
            i <= flags@.len(),
            flags@ == old(flags)@,
            short@ == "-s"@,
            long@ == "--scale"@,
            first_scale_flag(views(flags@.take(i as int))) is None,
        decreases flags.len() - i,
    {
        proof {
            assert(views(flags@.take(i + 1)).drop_last() =~= views(flags@.take(i as int)));
        }
        if flags[i] == short || flags[i] == long {
            proof {
                assert(first_scale_flag(views(flags@.take(i + 1))) == Some(i as int));
                lemma_first_scale_flag_prefix(views(flags@), i + 1);
                assert(views(flags@).take(i + 1) =~= views(flags@.take(i + 1)));
            }
            if i + 1 >= flags.len() {
                return Err(DraftError::MissingScaleValue);
            }
            let ghost before = flags@;
            flags.set(i + 1, String::from_str(DRAFT_SCALE));
            assert(views(flags@) =~= views(before).update(i + 1, DRAFT_SCALE@));
            return Ok(());
        }
        i = i + 1;
    }
    proof {
        assert(flags@.take(flags@.len() as int) =~= flags@);
    }
    Ok(())
}

proof fn lemma_first_scale_flag_prefix(flags: Seq<Seq<char>>, n: int)
    requires
        0 <= n <= flags.len(),
        first_scale_flag(flags.take(n)) is Some,
    ensures
        first_scale_flag(flags) == first_scale_flag(flags.take(n)),
    decreases flags.len() - n,
{
    if n < flags.len() {
        assert(flags.take(n + 1).drop_last() =~= flags.take(n));
        lemma_first_scale_flag_prefix(flags, n + 1);
    } else {
        assert(flags.take(n) =~= flags);
    }
}

/// The renderer candidates, in the order they are tried: the path the user
/// gave, if any, then the well-known install location and command names.
pub fn binary_candidates(hint: Option<String>) -> (r: Vec<String>)
    ensures
        views(r@) == match hint {
            Some(h) => seq![h@],
            None => Seq::empty(),
        } + seq![MACOS_BINARY@, GENERIC_BINARY@, GENERIC_BINARY_DOTTED@],
{
    let mut r: Vec<String> = Vec::new();
    let ghost first: Seq<Seq<char>> = match &hint {
        Some(h) => seq![h@],
        None => Seq::empty(),
    };
    match hint {
        Some(h) => r.push(h),
        None => {},
    }
    assert(views(r@) =~= first);
    r.push(String::from_str(MACOS_BINARY));
    r.push(String::from_str(GENERIC_BINARY));
    r.push(String::from_str(GENERIC_BINARY_DOTTED));
    assert(views(r@) =~= first + seq![MACOS_BINARY@, GENERIC_BINARY@, GENERIC_BINARY_DOTTED@]);
    r
}

} // verus!
