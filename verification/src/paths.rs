use vstd::prelude::*;

verus! {

/// The library's path model: paths are plain character strings with `/`
/// as separator. Joining an absolute right-hand side replaces the base,
/// as the platform's path join does.
pub open spec fn spec_join(base: Seq<char>, rel: Seq<char>) -> Seq<char> {
    if rel.len() > 0 && rel[0] == '/' {
        rel
    } else if base.len() > 0 && base.last() == '/' {
        base + rel
    } else {
        base + seq!['/'] + rel
    }
}

/// Join `rel` onto `base` with `/` as separator; an absolute `rel`
/// replaces `base`.
pub fn join_path(base: &str, rel: &str) -> (r: String)
    ensures
        r@ == spec_join(base@, rel@),
{
    let rel_len = rel.unicode_len();
    if rel_len > 0 && rel.get_char(0) == '/' {
        return rel.to_owned();
    }
    let base_len = base.unicode_len();
    let mut r = base.to_owned();
    if !(base_len > 0 && base.get_char(base_len - 1) == '/') {
        r.append("/");
        proof {
            reveal_strlit("/");
            assert(r@ =~= base@ + seq!['/']);
        }
    }
    r.append(rel);
    proof {
        if !(base@.len() > 0 && base@.last() == '/') {
            assert(r@ =~= base@ + seq!['/'] + rel@);
        }
    }
    r
}

/// Relates a path to its normalized form: the path comes back unchanged,
/// unless it began with the four-character Windows verbatim prefix and
/// that prefix was stripped.
pub open spec fn simplifies_to(p: Seq<char>, r: Seq<char>) -> bool {
    ||| r == p
    ||| (p.len() >= 4 && p[0] == '\\' && p[1] == '\\' && p[2] == '?' && p[3] == '\\' && r == p.skip(
        4,
    ))
}

/// Relies on dunce::simplified: it returns its argument unmodified unless
/// the path starts with the Windows verbatim prefix `\\?\` and stripping
/// it is unambiguous, in which case exactly those four characters are
/// removed.
#[verifier::external_body]
pub fn simplified(path: &str) -> (r: String)
    ensures
        simplifies_to(path@, r@),
{
    dunce::simplified(std::path::Path::new(path)).to_string_lossy().into_owned()
}

/// An optionally configured directory (assets, resources or runtime
/// libraries), resolved against the directory of the source manifest and
/// normalized; absent stays absent.
pub fn resolve_config_dir(crate_dir: &str, configured: &Option<String>) -> (r: Option<String>)
    ensures
        r is Some <==> configured is Some,
        r is Some ==> simplifies_to(
            spec_join(crate_dir@, configured->Some_0@),
            r->Some_0@,
        ),
{
    match configured {
        Some(d) => Some(simplified(join_path(crate_dir, d.as_str()).as_str())),
        None => None,
    }
}

/// The session's package build directory: the normalized build output
/// root, then the profile's directory name, then `apk`.
pub fn apk_build_dir(target_dir: &str, profile_dir: &str) -> (r: String)
    ensures
        exists|s: Seq<char>|
            simplifies_to(target_dir@, s) && r@ == spec_join(
                spec_join(s, profile_dir@),
                "apk"@,
            ),
{
    let s = simplified(target_dir);
    let r = join_path(join_path(s.as_str(), profile_dir).as_str(), "apk");
    proof {
        assert(simplifies_to(target_dir@, s@) && r@ == spec_join(
            spec_join(s@, profile_dir@),
            "apk"@,
        ));
    }
    r
}

/// Append a target's own internal dependency output directory to its
/// library search paths, after the paths the toolchain reported.
pub fn push_deps_dir(search_paths: &mut Vec<String>, target_build_dir: &str)
    ensures
        final(search_paths)@.len() == old(search_paths)@.len() + 1,
        final(search_paths)@ == old(search_paths)@.push(final(search_paths)@.last()),
        final(search_paths)@.last()@ == spec_join(target_build_dir@, "deps"@),
{
    let d = join_path(target_build_dir, "deps");
    search_paths.push(d);
}

} // verus!
