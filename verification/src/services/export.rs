//! Non-destructive output naming.
//!
//! Outputs are named after the source stem with the target extension
//! (`photo.png` → `photo.webp`). When that name is taken, an incrementing
//! number is appended (`photo-2.webp`, `photo-3.webp`, ...). The caller lists
//! the names already present in the output directory and, when the source file
//! itself lives there, its name too, so an output can never resolve to (and
//! overwrite) an existing file or the source.

use vstd::prelude::*;
use vstd::relations::injective_on;
use vstd::set_lib::{lemma_int_range, lemma_len_subset, lemma_map_size, set_int_range};

use crate::errors::{ErrorKind, ProcessingError};
use crate::text::{chars_of, dec, owned, push_all, push_dec, push_str, string_of, views};

verus! {

// ---------------------------------------------------------------------------
// File stems
// ---------------------------------------------------------------------------

/// The file stem of a file name, as `Path::file_stem` computes it: the part
/// before the last `.`, or the whole name when it has no dot, when its only
/// dot leads it (`.hidden`), or when it is `..`.
pub open spec fn file_stem_spec(name: Seq<char>) -> Seq<char> {
    if name == ".."@ {
        name
    } else {
        match name.index_of_last('.') {
            Some(k) => if k > 0 { name.take(k) } else { name },
            None => name,
        }
    }
}

/// The stem of a file name.
pub fn file_stem(name: &str) -> (stem: String)
    ensures
        stem@ == file_stem_spec(name@),
{
    let chars = chars_of(name);
    proof {
        reveal_strlit("..");
    }
    if chars.len() == 2 && chars[0] == '.' && chars[1] == '.' {
        assert(chars@ =~= ".."@);
        return owned(name);
    }
    assert(chars@ != ".."@) by {
        if chars@ == ".."@ {
            assert(chars@[0] == '.' && chars@[1] == '.');
        }
    }
    let mut i: usize = chars.len();
    while i > 0
        invariant
            i <= chars.len(),
            chars@ == name@,
            name@ != ".."@,
            forall|j: int| i <= j < chars.len() ==> chars@[j] != '.',
        decreases i,
    {
        if chars[i - 1] == '.' {
            let k = i - 1;
            proof {
                assert(name@[k as int] == '.');
                assert(name@.contains('.'));
                name@.index_of_last_ensures('.');
                let l = name@.index_of_last('.')->0;
                if l < k as int {
                    assert(name@[k as int] == '.');
                }
                if l > k as int {
                    assert(chars@[l] != '.');
                }
                assert(name@.index_of_last('.') == Some(k as int));
            }
            if k == 0 {
                return owned(name);
            }
            let mut out: Vec<char> = Vec::new();
            let mut j: usize = 0;
            while j < k
                invariant
                    j <= k < chars.len(),
                    k > 0,
                    chars@ == name@,
                    name@ != ".."@,
                    name@.index_of_last('.') == Some(k as int),
                    out@ == chars@.take(j as int),
                decreases k - j,
            {
                out.push(chars[j]);
                j = j + 1;
                assert(out@ =~= chars@.take(j as int));
            }
            return string_of(&out);
        }
        i = i - 1;
    }
    assert(!name@.contains('.')) by {
        if name@.contains('.') {
            let j = choose|j: int| 0 <= j < name@.len() && name@[j] == '.';
            assert(chars@[j] != '.');
        }
    }
    proof {
        name@.index_of_last_ensures('.');
    }
    owned(name)
}

// ---------------------------------------------------------------------------
// Numbered candidates
// ---------------------------------------------------------------------------

/// The `n`-th candidate for `base`: `base` itself first, then `base-2`,
/// `base-3`, ...
pub open spec fn numbered(base: Seq<char>, n: nat) -> Seq<char> {
    if n == 0 { base } else { base + "-"@ + dec(n + 1) }
}

/// The `n`-th candidate name: the numbered base followed by `tail` (the
/// extension with its dot, or nothing for folders).
pub open spec fn candidate(base: Seq<char>, tail: Seq<char>, n: nat) -> Seq<char> {
    numbered(base, n) + tail
}

/// `name` is the first candidate that is not occupied.
pub open spec fn is_first_free(base: Seq<char>, tail: Seq<char>, occupied: Seq<Seq<char>>, name: Seq<char>) -> bool {
    exists|n: nat|
        #![trigger candidate(base, tail, n)]
        name == candidate(base, tail, n) && !occupied.contains(name)
            && forall|m: nat| m < n ==> occupied.contains(#[trigger] candidate(base, tail, m))
}

/// Different numbers give different candidate names.
pub proof fn lemma_candidate_injective(base: Seq<char>, tail: Seq<char>, a: nat, b: nat)
    requires
        candidate(base, tail, a) == candidate(base, tail, b),
    ensures
        a == b,
{
    reveal_strlit("-");
    assert("-"@.len() == 1);
    crate::text::lemma_dec_shape(a + 1);
    crate::text::lemma_dec_shape(b + 1);
    let ca = candidate(base, tail, a);
    let cb = candidate(base, tail, b);
    if a == 0 && b != 0 {
        assert(ca.len() < cb.len());
    } else if a != 0 && b == 0 {
        assert(ca.len() > cb.len());
    } else if a != 0 && b != 0 {
        let lo = base.len() + 1;
        assert(ca.len() == base.len() + 1 + dec(a + 1).len() + tail.len());
        assert(cb.len() == base.len() + 1 + dec(b + 1).len() + tail.len());
        assert(dec(a + 1).len() == dec(b + 1).len());
        let hi = lo + dec(a + 1).len();
        assert(ca.subrange(lo as int, hi as int) =~= dec(a + 1));
        assert(cb.subrange(lo as int, hi as int) =~= dec(b + 1));
        crate::text::lemma_dec_injective(a + 1, b + 1);
    }
}

/// If the first `n` candidates are all occupied, the occupied list has at
/// least `n` entries.
pub proof fn lemma_occupied_bound(base: Seq<char>, tail: Seq<char>, occupied: Seq<Seq<char>>, n: nat)
    requires
        forall|m: nat| m < n ==> occupied.contains(#[trigger] candidate(base, tail, m)),
    ensures
        n <= occupied.len(),
{
    broadcast use vstd::seq_lib::seq_to_set_is_finite;
    let f = |i: int| candidate(base, tail, i as nat);
    let x = set_int_range(0, n as int);
    lemma_int_range(0, n as int);
    assert(injective_on(f, x)) by {
        assert forall|i1: int, i2: int|
            x.contains(i1) && x.contains(i2) && #[trigger] f(i1) == #[trigger] f(i2) implies i1 == i2 by {
            lemma_candidate_injective(base, tail, i1 as nat, i2 as nat);
        }
    }
    let y = x.map(f);
    lemma_map_size(x, y, f);
    assert(y.subset_of(occupied.to_set())) by {
        assert forall|s: Seq<char>| y.contains(s) implies occupied.to_set().contains(s) by {
            let i = choose|i: int| x.contains(i) && f(i) == s;
            assert(occupied.contains(candidate(base, tail, i as nat)));
        }
    }
    lemma_len_subset(y, occupied.to_set());
    occupied.lemma_cardinality_of_set();
}

/// Whether `name` is among the `occupied` names.
pub fn is_occupied(occupied: &Vec<String>, name: &String) -> (b: bool)
    ensures
        b == views(occupied@).contains(name@),
{
    let mut i: usize = 0;
    while i < occupied.len()
        invariant
            i <= occupied.len(),
            forall|j: int| 0 <= j < i ==> occupied@[j]@ != name@,
        decreases occupied.len() - i,
    {
        if occupied[i] == *name {
            assert(views(occupied@)[i as int] == name@);
            return true;
        }
        i = i + 1;
    }
    assert(!views(occupied@).contains(name@)) by {
        if views(occupied@).contains(name@) {
            let j = choose|j: int| 0 <= j < views(occupied@).len() && views(occupied@)[j] == name@;
            assert(occupied@[j]@ == name@);
        }
    }
    false
}

/// Builds the `n`-th candidate.
fn build_candidate(base: &Vec<char>, tail: &Vec<char>, n: usize) -> (name: String)
    requires
        n < usize::MAX,
    ensures
        name@ == candidate(base@, tail@, n as nat),
{
    let mut out: Vec<char> = Vec::new();
    push_all(&mut out, base);
    if n > 0 {
        out.push('-');
        push_dec(&mut out, (n + 1) as u64);
        proof {
            reveal_strlit("-");
        }
    }
    push_all(&mut out, tail);
    assert(out@ =~= candidate(base@, tail@, n as nat));
    string_of(&out)
}

/// The first candidate for `base` + `tail` that is not among `occupied`.
pub fn first_free_name(base: &Vec<char>, tail: &Vec<char>, occupied: &Vec<String>) -> (name: String)
    requires
        occupied@.len() < usize::MAX,
    ensures
        is_first_free(base@, tail@, views(occupied@), name@),
{
    let ghost occ = views(occupied@);
    assert(occ.len() == occupied@.len());
    let mut n: usize = 0;
    loop
        invariant
            occ == views(occupied@),
            occ.len() == occupied@.len(),
            occupied@.len() < usize::MAX,
            n <= occ.len(),
            forall|m: nat| m < n ==> occ.contains(#[trigger] candidate(base@, tail@, m)),
        decreases occ.len() - n,
    {
        let name = build_candidate(base, tail, n);
        if !is_occupied(occupied, &name) {
            assert(is_first_free(base@, tail@, occ, name@)) by {
                assert(name@ == candidate(base@, tail@, n as nat));
            }
            return name;
        }
        proof {
            assert forall|m: nat| m < n + 1 implies occ.contains(#[trigger] candidate(base@, tail@, m)) by {
                if m == n as nat {
                    assert(name@ == candidate(base@, tail@, n as nat));
                }
            }
            lemma_occupied_bound(base@, tail@, occ, (n + 1) as nat);
        }
        n = n + 1;
    }
}

// ---------------------------------------------------------------------------
// Output files and folders
// ---------------------------------------------------------------------------

/// Fails with `OutputUnavailable` when the export directory does not exist or
/// is not a directory, so a missing or moved destination is reported before
/// any work runs.
pub fn ensure_output_dir(dir_display: &str, is_dir: bool) -> (r: Result<(), ProcessingError>)
    ensures
        is_dir <==> r is Ok,
        r matches Err(e) ==> e.is(
            ErrorKind::OutputUnavailable,
            "Export directory is not available: "@ + dir_display@,
        ),
{
    if !is_dir {
        let mut message: Vec<char> = Vec::new();
        push_str(&mut message, "Export directory is not available: ");
        push_str(&mut message, dir_display);
        return Err(ProcessingError::new(ErrorKind::OutputUnavailable, string_of(&message)));
    }
    Ok(())
}

/// The tail of an output file name: a dot and the extension.
pub open spec fn extension_tail(ext: Seq<char>) -> Seq<char> {
    "."@ + ext
}

/// Resolves the output file name for a converted file, to be placed in the
/// output directory.
///
/// Naming: source stem + optional suffix + new extension (`photo.png` →
/// `photo.webp`, or `photo-compressed.png` with the `-compressed` suffix).
/// Collision rule: always auto-rename incrementally (`photo-2.webp`,
/// `photo-3.webp`, ...). `occupied` lists the names already present in the
/// output directory, including the source's own name when the source lives
/// there. Fails when the source path has no file name.
pub fn resolve_output_path(
    source_path: &str,
    source_file_name: Option<&str>,
    ext: &str,
    suffix: Option<&str>,
    occupied: &Vec<String>,
) -> (r: Result<String, ProcessingError>)
    requires
        occupied@.len() < usize::MAX,
    ensures
        source_file_name is None <==> r is Err,
        r matches Err(e) ==> e.is(
            ErrorKind::ProcessingFailed,
            "Could not determine file name for "@ + source_path@,
        ),
        r matches Ok(name) ==> {
            let base = file_stem_spec(source_file_name->0@) + match suffix {
                Some(s) => s@,
                None => Seq::empty(),
            };
            is_first_free(base, extension_tail(ext@), views(occupied@), name@)
        },
{
    match source_file_name {
        None => {
            let mut message: Vec<char> = Vec::new();
            push_str(&mut message, "Could not determine file name for ");
            push_str(&mut message, source_path);
            Err(ProcessingError::new(ErrorKind::ProcessingFailed, string_of(&message)))
        },
        Some(file_name) => {
            let stem = file_stem(file_name);
            let mut base = chars_of(stem.as_str());
            if let Some(s) = suffix {
                push_str(&mut base, s);
            }
            let mut tail: Vec<char> = Vec::new();
            tail.push('.');
            push_str(&mut tail, ext);
            proof {
                reveal_strlit(".");
            }
            assert(tail@ =~= extension_tail(ext@));
            assert(base@ =~= file_stem_spec(file_name@) + match suffix {
                Some(s) => s@,
                None => Seq::<char>::empty(),
            });
            Ok(first_free_name(&base, &tail, occupied))
        },
    }
}

/// Base name of the Logo Pack output folder; numbered on collision.
pub open spec fn pack_folder_base() -> Seq<char> {
    "web-pack"@
}

/// Resolves a fresh Logo Pack folder name (`web-pack`, `web-pack-2`, ...)
/// so a previous pack is never overwritten. `occupied` lists the entries
/// already present in the export directory.
pub fn resolve_pack_folder(occupied: &Vec<String>) -> (name: String)
    requires
        occupied@.len() < usize::MAX,
    ensures
        is_first_free(pack_folder_base(), Seq::empty(), views(occupied@), name@),
{
    let base = chars_of("web-pack");
    let tail: Vec<char> = Vec::new();
    assert(tail@ =~= Seq::<char>::empty());
    first_free_name(&base, &tail, occupied)
}

/// The name of the `n`-th partial output for a final file name:
/// `{final stem}.part-{n}.{ext}` (`output` when the final name is unknown).
pub open spec fn partial_name_spec(final_file_name: Option<Seq<char>>, n: nat, ext: Seq<char>) -> Seq<char> {
    let stem = match final_file_name {
        Some(name) => file_stem_spec(name),
        None => "output"@,
    };
    stem + ".part-"@ + dec(n) + "."@ + ext
}

/// The name of the `n`-th partial output next to a final output. The caller
/// advances `n` until the name is free.
pub fn partial_name(final_file_name: Option<&str>, n: u32, ext: &str) -> (name: String)
    ensures
        name@ == partial_name_spec(
            match final_file_name {
                Some(f) => Some(f@),
                None => None,
            },
            n as nat,
            ext@,
        ),
{
    let stem = match final_file_name {
        Some(f) => file_stem(f),
        None => owned("output"),
    };
    let mut out = chars_of(stem.as_str());
    push_str(&mut out, ".part-");
    push_dec(&mut out, n as u64);
    out.push('.');
    push_str(&mut out, ext);
    proof {
        reveal_strlit(".");
    }
    let ghost stem_spec = match final_file_name {
        Some(f) => file_stem_spec(f@),
        None => "output"@,
    };
    assert(out@ =~= stem_spec + ".part-"@ + dec(n as nat) + "."@ + ext@);
    string_of(&out)
}

// ---------------------------------------------------------------------------
// Laws
// ---------------------------------------------------------------------------

/// A resolved name is never one of the occupied names: an existing output or
/// the source itself is never overwritten.
pub proof fn law_never_overwrites(base: Seq<char>, tail: Seq<char>, occupied: Seq<Seq<char>>, name: Seq<char>)
    requires
        is_first_free(base, tail, occupied, name),
    ensures
        !occupied.contains(name),
{
}

/// The resolved name is unique: two resolutions against the same occupied
/// names agree.
pub proof fn law_resolution_is_deterministic(
    base: Seq<char>,
    tail: Seq<char>,
    occupied: Seq<Seq<char>>,
    a: Seq<char>,
    b: Seq<char>,
)
    requires
        is_first_free(base, tail, occupied, a),
        is_first_free(base, tail, occupied, b),
    ensures
        a == b,
{
    let na = choose|n: nat| #![trigger candidate(base, tail, n)] a == candidate(base, tail, n) && !occupied.contains(a)
        && forall|m: nat| m < n ==> occupied.contains(#[trigger] candidate(base, tail, m));
    let nb = choose|n: nat| #![trigger candidate(base, tail, n)] b == candidate(base, tail, n) && !occupied.contains(b)
        && forall|m: nat| m < n ==> occupied.contains(#[trigger] candidate(base, tail, m));
    if na < nb {
        assert(occupied.contains(candidate(base, tail, na)));
    } else if nb < na {
        assert(occupied.contains(candidate(base, tail, nb)));
    }
}

/// With nothing occupied, the plain name (stem + extension) is used.
pub proof fn law_fresh_output_uses_plain_name(base: Seq<char>, tail: Seq<char>, name: Seq<char>)
    requires
        is_first_free(base, tail, Seq::empty(), name),
    ensures
        name == base + tail,
{
    let n = choose|n: nat| #![trigger candidate(base, tail, n)] name == candidate(base, tail, n)
        && !Seq::<Seq<char>>::empty().contains(name)
        && forall|m: nat| m < n ==> Seq::<Seq<char>>::empty().contains(#[trigger] candidate(base, tail, m));
    if n > 0 {
        assert(Seq::<Seq<char>>::empty().contains(candidate(base, tail, 0)));
    }
}

/// When only the plain name and the names numbered 2..=k are taken, the next
/// number is used.
pub proof fn law_collision_renames_incrementally(base: Seq<char>, tail: Seq<char>, k: nat, name: Seq<char>)
    requires
        is_first_free(base, tail, Seq::new(k, |i: int| candidate(base, tail, i as nat)), name),
    ensures
        name == candidate(base, tail, k),
{
    let occ = Seq::new(k, |i: int| candidate(base, tail, i as nat));
    let n = choose|n: nat| #![trigger candidate(base, tail, n)] name == candidate(base, tail, n) && !occ.contains(name)
        && forall|m: nat| m < n ==> occ.contains(#[trigger] candidate(base, tail, m));
    if n < k {
        assert(occ[n as int] == name);
    } else if n > k {
        assert(occ.contains(candidate(base, tail, k)));
        let i = choose|i: int| 0 <= i < occ.len() && occ[i] == candidate(base, tail, k);
        lemma_candidate_injective(base, tail, i as nat, k);
    }
}

/// Partial outputs with different numbers have different names.
pub proof fn law_partial_names_are_unique(final_file_name: Option<Seq<char>>, a: nat, b: nat, ext: Seq<char>)
    requires
        partial_name_spec(final_file_name, a, ext) == partial_name_spec(final_file_name, b, ext),
    ensures
        a == b,
{
    let stem = match final_file_name {
        Some(name) => file_stem_spec(name),
        None => "output"@,
    };
    let pa = partial_name_spec(final_file_name, a, ext);
    let pb = partial_name_spec(final_file_name, b, ext);
    reveal_strlit(".part-");
    reveal_strlit(".");
    assert(".part-"@.len() == 6);
    assert("."@.len() == 1);
    assert(pa.len() == stem.len() + 6 + dec(a).len() + 1 + ext.len());
    assert(pb.len() == stem.len() + 6 + dec(b).len() + 1 + ext.len());
    assert(dec(a).len() == dec(b).len());
    let lo = stem.len() + 6;
    let hi = lo + dec(a).len();
    assert(pa.subrange(lo as int, hi as int) =~= dec(a));
    assert(pb.subrange(lo as int, hi as int) =~= dec(b));
    crate::text::lemma_dec_injective(a, b);
}

} // verus!
