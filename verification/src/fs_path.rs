//! Mapping a request target to a file below the served directory.
use vstd::prelude::*;
use crate::text::{chars_of, string_from_chars};

verus! {

/// What `std::path::Path::extension` gives for the path spelled by `path`.
pub uninterp spec fn path_extension(path: Seq<char>) -> Option<Seq<char>>;

/// What `PathBuf::push` makes of the path `base` extended with `path`
/// (Unix paths): an absolute `path` replaces `base`; otherwise `path` is
/// appended, after a `/` where `base` is not empty and does not already end
/// in one.
pub open spec fn path_push(base: Seq<char>, path: Seq<char>) -> Seq<char> {
    if path.len() > 0 && path[0] == '/' {
        path
    } else if base.len() > 0 && base.last() != '/' {
        base + seq!['/'] + path
    } else {
        base + path
    }
}

/// What collecting `[first, second]` into a `std::path::PathBuf` spells:
/// the empty path pushed with `first`, then with `second`.
pub open spec fn path_collect(first: Seq<char>, second: Seq<char>) -> Seq<char> {
    path_push(path_push(Seq::empty(), first), second)
}

/// The extension of a path (`Path::extension`).  Trusted: the result is
/// `path_extension` of the argument.
#[verifier::external_body]
pub(crate) fn extension_of(path: &str) -> (r: Option<String>)
    ensures
        match r {
            Some(e) => path_extension(path@) == Some(e@),
            None => path_extension(path@) is None,
        },
{
    match std::path::Path::new(path).extension() {
        Some(e) => Some(e.to_string_lossy().into_owned()),
        None => None,
    }
}

/// The path that collecting `[first, second]` into a `PathBuf` builds.
pub fn collect_path(first: &str, second: &str) -> (r: String)
    ensures
        r@ == path_collect(first@, second@),
{
    let a = chars_of(first);
    let b = chars_of(second);
    assert(path_push(Seq::empty(), a@) == a@) by {
        assert(Seq::<char>::empty() + a@ =~= a@);
    }
    let out = if b.len() > 0 && b[0] == '/' {
        b
    } else {
        let mut out = a;
        if out.len() > 0 && out[out.len() - 1] != '/' {
            out.push('/');
        }
        let ghost start = out@;
        let mut k: usize = 0;
        while k < b.len()
            invariant
                0 <= k <= b@.len(),
                out@ == start + b@.subrange(0, k as int),
            decreases b@.len() - k,
        {
            out.push(b[k]);
            k = k + 1;
        }
        assert(b@.subrange(0, b@.len() as int) =~= b@);
        assert(a@.len() > 0 && a@.last() != '/' ==> start =~= a@ + seq!['/']);
        out
    };
    string_from_chars(out.as_slice())
}

/// A target that stays relative is served from below the served directory:
/// its path is the directory followed by the relative target.
pub proof fn law_relative_target_below_base(target: Seq<char>)
    requires
        !(relative_target(target).len() > 0 && relative_target(target)[0] == '/'),
    ensures
        served_path(target) == base_dir() + relative_target(target),
{
    reveal_strlit("./public/httptest/");
    assert(path_push(Seq::empty(), base_dir()) =~= base_dir());
}

/// The directory that requested files are looked up in.
pub open spec fn base_dir() -> Seq<char> {
    "./public/httptest/"@
}

/// The file name served for a target that names a directory.
pub open spec fn index_suffix() -> Seq<char> {
    "/index.html"@
}

/// The target made relative: a target without an extension names a
/// directory and gets `/index.html` appended; then one leading `/` is
/// dropped.
pub open spec fn relative_target(target: Seq<char>) -> Seq<char> {
    let with_index = if path_extension(target) is None {
        target + index_suffix()
    } else {
        target
    };
    if with_index.len() > 0 && with_index[0] == '/' {
        with_index.drop_first()
    } else {
        with_index
    }
}

/// The path of the file that serves `target`: the served directory and the
/// relative target, collected into one path.
pub open spec fn served_path(target: Seq<char>) -> Seq<char> {
    path_collect(base_dir(), relative_target(target))
}

/// A target whose path has no extension names a directory and is served
/// from its index page: the served path ends in `/index.html`.  A target
/// with an extension is served as it is, less one leading `/`.
pub proof fn law_index_page_for_directories(target: Seq<char>)
    ensures
        path_extension(target) is None ==> crate::text::ends_with(
            served_path(target),
            "/index.html"@,
        ),
        path_extension(target) is Some ==> relative_target(target) == if target.len() > 0
            && target[0] == '/' {
            target.subrange(1, target.len() as int)
        } else {
            target
        },
{
    reveal_strlit("/index.html");
    reveal_strlit("./public/httptest/");
    let suffix = "/index.html"@;
    assert(suffix.len() == 11 && suffix[0] == '/');
    if path_extension(target) is None {
        let with_index = target + suffix;
        let rel = relative_target(target);
        let base = base_dir();
        assert(base.len() == 18 && base.last() == '/');
        assert(path_push(Seq::empty(), base) =~= base);
        let out = served_path(target);
        assert(out == path_push(base, rel));
        if with_index[0] == '/' {
            assert(rel =~= with_index.drop_first());
        } else {
            assert(rel == with_index);
        }
        // `rel` ends with `index.html`, preceded by `/` or by the end of the
        // served directory.
        assert(rel.len() >= 10);
        assert(rel.subrange(rel.len() - 10, rel.len() as int) =~= suffix.subrange(1, 11));
        if rel.len() > 0 && rel[0] == '/' {
            assert(out == rel);
            assert(target.len() >= 1);
            assert(rel.len() >= 11);
            assert(rel.subrange(rel.len() - 11, rel.len() as int) =~= suffix);
        } else {
            assert(out == base + rel);
            if rel.len() >= 11 {
                assert(rel.subrange(rel.len() - 11, rel.len() as int) =~= suffix);
                assert(out.subrange(out.len() - 11, out.len() as int) =~= rel.subrange(
                    rel.len() - 11,
                    rel.len() as int,
                ));
            } else {
                assert(rel.len() == 10);
                assert(out.subrange(out.len() - 11, out.len() as int) =~= seq![base.last()]
                    + rel);
                assert(out.subrange(out.len() - 11, out.len() as int) =~= suffix);
            }
        }
    }
}

} // verus!
