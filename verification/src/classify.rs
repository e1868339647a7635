//! Path classification.
//!
//! A path's processing category is derived purely from its syntactic
//! form: the extension of its file name decides whether it is treated as
//! the structured image format (which needs a decode/re-encode
//! pipeline), as an ordinary raster image, or as a non-image. No I/O is
//! involved: a path that does not exist still has a classification, and
//! any I/O failure surfaces only when the file is acted upon.

use vstd::prelude::*;
use vstd::string::StrSliceExecFns;

verus! {

/// The processing category of a path.
#[derive(Clone, Copy, Debug, PartialEq, Eq, Structural)]
pub enum FileClassification {
    /// The structured image format: a container that must be decoded,
    /// transformed and re-encoded rather than edited in place.
    StructuredFormat,
    /// Any other supported raster image format.
    StandardImage,
    /// Anything else: skipped with a warning, never opened as an image.
    NonImage,
}

/// The suffix of `s` that follows the last occurrence of `c`; all of
/// `s` when `c` does not occur in it.
pub open spec fn after_last(s: Seq<char>, c: char) -> Seq<char>
    decreases s.len(),
{
    if s.len() == 0 {
        s
    } else if s[s.len() - 1] == c {
        Seq::empty()
    } else {
        after_last(s.drop_last(), c).push(s[s.len() - 1])
    }
}

/// The file-name portion of a path: everything after its last `/`
/// separator (the whole path when it has none).
pub open spec fn file_name_of(path: Seq<char>) -> Seq<char> {
    after_last(path, '/')
}

/// Whether a file name carries an extension: it holds a dot at some
/// position after the first character. A name whose only dot leads it,
/// such as a hidden configuration file, has no extension.
pub open spec fn has_extension(name: Seq<char>) -> bool {
    exists|i: int| 1 <= i < name.len() && name[i] == '.'
}

/// The extension of a file name: what follows its last dot.
pub open spec fn extension_of(name: Seq<char>) -> Seq<char> {
    after_last(name, '.')
}

/// ASCII-case-insensitive match of one character against a lower/upper
/// pair.
pub open spec fn eqi(c: char, lower: char, upper: char) -> bool {
    c == lower || c == upper
}

/// Whether an extension names the structured image format (`jxl`, in
/// any ASCII case).
pub open spec fn is_structured_extension(e: Seq<char>) -> bool {
    e.len() == 3 && eqi(e[0], 'j', 'J') && eqi(e[1], 'x', 'X') && eqi(e[2], 'l', 'L')
}

/// Whether an extension names a supported ordinary raster format
/// (`jpg`, `jpeg`, `png` or `webp`, in any ASCII case).
pub open spec fn is_raster_extension(e: Seq<char>) -> bool {
    ||| (e.len() == 3 && eqi(e[0], 'j', 'J') && eqi(e[1], 'p', 'P') && eqi(e[2], 'g', 'G'))
    ||| (e.len() == 4 && eqi(e[0], 'j', 'J') && eqi(e[1], 'p', 'P') && eqi(e[2], 'e', 'E')
        && eqi(e[3], 'g', 'G'))
    ||| (e.len() == 3 && eqi(e[0], 'p', 'P') && eqi(e[1], 'n', 'N') && eqi(e[2], 'g', 'G'))
    ||| (e.len() == 4 && eqi(e[0], 'w', 'W') && eqi(e[1], 'e', 'E') && eqi(e[2], 'b', 'B')
        && eqi(e[3], 'p', 'P'))
}

/// The classification of a path: decided by the extension of its file
/// name, with the structured format taking precedence over the raster
/// formats.
pub open spec fn classification_of(path: Seq<char>) -> FileClassification {
    let name = file_name_of(path);
    if !has_extension(name) {
        FileClassification::NonImage
    } else if is_structured_extension(extension_of(name)) {
        FileClassification::StructuredFormat
    } else if is_raster_extension(extension_of(name)) {
        FileClassification::StandardImage
    } else {
        FileClassification::NonImage
    }
}

/// When everything at or after position `i` differs from `c`, and `i`
/// is either the start of `s` or preceded by `c`, the suffix after the
/// last `c` is exactly `s[i..]`.
proof fn lemma_after_last_from_scan(s: Seq<char>, c: char, i: int)
    requires
        0 <= i <= s.len(),
        forall|j: int| i <= j < s.len() ==> s[j] != c,
        i == 0 || s[i - 1] == c,
    ensures
        after_last(s, c) == s.subrange(i, s.len() as int),
    decreases s.len(),
{
    if s.len() == 0 {
        assert(s.subrange(0, 0) =~= s);
    } else if s[s.len() - 1] == c {
        assert(i == s.len());
        assert(after_last(s, c) =~= s.subrange(i, s.len() as int));
    } else {
        assert(i < s.len());
        lemma_after_last_from_scan(s.drop_last(), c, i);
        assert(s.drop_last().subrange(i, s.len() - 1) =~= s.subrange(i, s.len() - 1));
        assert(s.subrange(i, s.len() - 1).push(s[s.len() - 1]) =~= s.subrange(
            i,
            s.len() as int,
        ));
    }
}

/// Classifies a path by its syntactic form alone.
pub fn classify(path: &str) -> (c: FileClassification)
    ensures
        c == classification_of(path@),
{
    let n: usize = path.unicode_len();

    // Find the start of the file name: scan back to the last separator.
    let mut i: usize = n;
    while i > 0 && path.get_char(i - 1) != '/'
        invariant
            i <= n,
            n == path@.len(),
            forall|j: int| i <= j < n ==> path@[j] != '/',
        decreases i,
    {
        i -= 1;
    }
    proof {
        lemma_after_last_from_scan(path@, '/', i as int);
    }
    let ghost name = path@.subrange(i as int, n as int);
    assert(file_name_of(path@) == name);

    // Find the position after the last dot of the file name.
    let mut j: usize = n;
    while j > i && path.get_char(j - 1) != '.'
        invariant
            i <= j <= n,
            n == path@.len(),
            forall|k: int| j <= k < n ==> path@[k] != '.',
        decreases j,
    {
        j -= 1;
    }

    if j <= i {
        // Either the name holds no dot at all, or its only remaining
        // dot candidate would lead it: no extension.
        proof {
            assert forall|k: int| 1 <= k < name.len() implies name[k] != '.' by {
                assert(name[k] == path@[i + k]);
            }
        }
        return FileClassification::NonImage;
    }
    if j == i + 1 {
        // The last dot is the first character of the name: a hidden
        // file, not an extension.
        proof {
            assert(path@[i as int] == '.');
            assert forall|k: int| 1 <= k < name.len() implies name[k] != '.' by {
                assert(name[k] == path@[i + k]);
            }
        }
        return FileClassification::NonImage;
    }

    // The extension is path[j..n]; the last dot sits at j - 1 > i.
    proof {
        assert(name[j - 1 - i] == path@[j - 1]);
        assert(1 <= j - 1 - i < name.len() && name[j - 1 - i] == '.');
        assert(has_extension(name));
        lemma_after_last_from_scan(name, '.', j - i);
        assert(name.subrange(j - i, name.len() as int) =~= path@.subrange(j as int, n as int));
    }
    let ghost ext = path@.subrange(j as int, n as int);
    assert(extension_of(name) == ext);

    let m: usize = n - j;
    let structured: bool = if m == 3 {
        let c0 = path.get_char(j);
        let c1 = path.get_char(j + 1);
        let c2 = path.get_char(j + 2);
        (c0 == 'j' || c0 == 'J') && (c1 == 'x' || c1 == 'X') && (c2 == 'l' || c2 == 'L')
    } else {
        false
    };
    assert(structured == is_structured_extension(ext));

    let raster: bool = if m == 3 {
        let c0 = path.get_char(j);
        let c1 = path.get_char(j + 1);
        let c2 = path.get_char(j + 2);
        ((c0 == 'j' || c0 == 'J') && (c1 == 'p' || c1 == 'P') && (c2 == 'g' || c2 == 'G')) || (
        (c0 == 'p' || c0 == 'P') && (c1 == 'n' || c1 == 'N') && (c2 == 'g' || c2 == 'G'))
    } else if m == 4 {
        let c0 = path.get_char(j);
        let c1 = path.get_char(j + 1);
        let c2 = path.get_char(j + 2);
        let c3 = path.get_char(j + 3);
        ((c0 == 'j' || c0 == 'J') && (c1 == 'p' || c1 == 'P') && (c2 == 'e' || c2 == 'E') && (
        c3 == 'g' || c3 == 'G')) || ((c0 == 'w' || c0 == 'W') && (c1 == 'e' || c1 == 'E') && (
        c2 == 'b' || c2 == 'B') && (c3 == 'p' || c3 == 'P'))
    } else {
        false
    };
    assert(raster == is_raster_extension(ext));

    if structured {
        FileClassification::StructuredFormat
    } else if raster {
        FileClassification::StandardImage
    } else {
        FileClassification::NonImage
    }
}

} // verus!
