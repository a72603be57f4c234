//! Where things are on disk: the output directory that a set of environment
//! variables selects, the paths and patterns below the module's directory.

use vstd::prelude::*;

verus! {

/// `rel` below `base`: `rel` itself where it is absolute, else the two with
/// one `/` between them, none being added after an empty `base` or one that
/// ends in `/`.
pub open spec fn joined(base: Seq<char>, rel: Seq<char>) -> Seq<char> {
    if rel.len() > 0 && rel[0] == '/' {
        rel
    } else if base.len() == 0 || base.last() == '/' {
        base + rel
    } else {
        base.push('/') + rel
    }
}

/// Joins two paths.
pub fn join(base: &str, rel: &str) -> (path: String)
    ensures
        path@ == joined(base@, rel@),
{
    if rel.unicode_len() > 0 && rel.get_char(0) == '/' {
        return rel.to_owned();
    }
    let mut path = base.to_owned();
    let len: usize = base.unicode_len();
    if len > 0 && base.get_char(len - 1) != '/' {
        path.push('/');
    }
    path.append(rel);
    path
}

/// The part of the output directory's name that tells configurations apart:
/// `_NAME_value` for each variable, in the order given.
pub open spec fn cache_key(env: Seq<(Seq<char>, Seq<char>)>) -> Seq<char>
    decreases env.len(),
{
    if env.len() == 0 {
        Seq::empty()
    } else {
        (cache_key(env.drop_last()).push('_') + env.last().0).push('_') + env.last().1
    }
}

/// The output directory, relative to the module's: `target/` followed by the
/// cache key.
pub open spec fn output_dir(env: Seq<(Seq<char>, Seq<char>)>) -> Seq<char> {
    "target/"@ + cache_key(env)
}

/// The module's build descriptor.
pub open spec fn descriptor_path(module_dir: Seq<char>) -> Seq<char> {
    joined(module_dir, "Cargo.toml"@)
}

/// The directory that the compiler writes the target's artifacts below.
pub open spec fn output_root(module_dir: Seq<char>, env: Seq<(Seq<char>, Seq<char>)>) -> Seq<char> {
    joined(joined(module_dir, output_dir(env)), "wasm32-unknown-unknown/"@)
}

/// The subdirectory of the output root for a profile.
pub open spec fn profile_dir(release: bool) -> Seq<char> {
    if release {
        "release/"@
    } else {
        "debug/"@
    }
}

/// The pattern that the artifact is looked for with: every `.wasm` file
/// directly in the profile's directory.
pub open spec fn artifact_pattern(
    module_dir: Seq<char>,
    env: Seq<(Seq<char>, Seq<char>)>,
    release: bool,
) -> Seq<char> {
    joined(joined(output_root(module_dir, env), profile_dir(release)), "*.wasm"@)
}

/// The pattern that the module's own files are listed with: everything
/// below its directory, at any depth.
pub open spec fn sources_pattern(module_dir: Seq<char>) -> Seq<char> {
    joined(module_dir, "**/*"@)
}

/// Derives the output directory for a list of environment variables.
pub fn derive_output_dir(env_vars: &Vec<(String, String)>) -> (dir: String)
    ensures
        dir@ == output_dir(env_vars.deep_view()),
{
    let mut dir = "target/".to_owned();
    let ghost env = env_vars.deep_view();
    let mut i: usize = 0;
    while i < env_vars.len()
        invariant
            i <= env_vars.len(),
            env == env_vars.deep_view(),
            dir@ == output_dir(env.take(i as int)),
        decreases env_vars.len() - i,
    {
        proof {
            let next = env.take(i + 1);
            assert(next.drop_last() =~= env.take(i as int));
            assert(env[i as int] == (env_vars[i as int].0@, env_vars[i as int].1@));
        }
        dir.push('_');
        dir.append(env_vars[i].0.as_str());
        dir.push('_');
        dir.append(env_vars[i].1.as_str());
        proof {
            assert(dir@ =~= "target/"@ + ((cache_key(env.take(i as int)).push('_') + env[i as int].0).push(
                '_',
            ) + env[i as int].1));
        }
        i += 1;
    }
    proof {
        assert(env.take(i as int) =~= env);
    }
    dir
}

/// Path of the build descriptor in a module's directory.
pub fn descriptor_in(module_dir: &str) -> (path: String)
    ensures
        path@ == descriptor_path(module_dir@),
{
    join(module_dir, "Cargo.toml")
}

/// The directory that holds the target's artifacts for this configuration.
pub fn output_root_of(module_dir: &str, env_vars: &Vec<(String, String)>) -> (path: String)
    ensures
        path@ == output_root(module_dir@, env_vars.deep_view()),
{
    let dir = derive_output_dir(env_vars);
    let below = join(module_dir, dir.as_str());
    join(below.as_str(), "wasm32-unknown-unknown/")
}

/// The pattern to look for the artifact with.
pub fn artifact_pattern_of(module_dir: &str, env_vars: &Vec<(String, String)>, release: bool) -> (pattern:
    String)
    ensures
        pattern@ == artifact_pattern(module_dir@, env_vars.deep_view(), release),
{
    let root = output_root_of(module_dir, env_vars);
    let profile = if release {
        join(root.as_str(), "release/")
    } else {
        join(root.as_str(), "debug/")
    };
    join(profile.as_str(), "*.wasm")
}

/// The pattern to list the module's own files with.
pub fn sources_pattern_of(module_dir: &str) -> (pattern: String)
    ensures
        pattern@ == sources_pattern(module_dir@),
{
    join(module_dir, "**/*")
}

/// No `_` occurs in `s`.
pub open spec fn plain(s: Seq<char>) -> bool {
    forall|i: int| 0 <= i < s.len() ==> s[i] != '_'
}

/// No `_` occurs in any name or value.
pub open spec fn all_plain(env: Seq<(Seq<char>, Seq<char>)>) -> bool {
    forall|i: int| 0 <= i < env.len() ==> plain((#[trigger] env[i]).0) && plain(env[i].1)
}

/// A text that ends in `_` and a word without `_` can be read in one way
/// only.
proof fn lemma_last_word(x: Seq<char>, v: Seq<char>, y: Seq<char>, w: Seq<char>)
    requires
        plain(v),
        plain(w),
        x.push('_') + v == y.push('_') + w,
    ensures
        x == y,
        v == w,
{
    let s = x.push('_') + v;
    let t = y.push('_') + w;
    assert(s.len() == x.len() + 1 + v.len());
    assert(t.len() == y.len() + 1 + w.len());
    assert(s[x.len() as int] == '_');
    assert(t[y.len() as int] == '_');
    if v.len() < w.len() {
        assert(t[x.len() as int] == w[x.len() - y.len() - 1]);
        assert(false);
    }
    if v.len() > w.len() {
        assert(s[y.len() as int] == v[y.len() - x.len() - 1]);
        assert(false);
    }
    assert forall|i: int| 0 <= i < x.len() implies x[i] == y[i] by {
        assert(s[i] == x[i]);
        assert(t[i] == y[i]);
    }
    assert(x =~= y);
    assert forall|i: int| 0 <= i < v.len() implies v[i] == w[i] by {
        assert(s[x.len() + 1 + i] == v[i]);
        assert(t[y.len() + 1 + i] == w[i]);
    }
    assert(v =~= w);
}

/// Two lists of variables without `_` in their names and values that give
/// the same cache key are the same list.
pub proof fn lemma_cache_key_injective(
    a: Seq<(Seq<char>, Seq<char>)>,
    b: Seq<(Seq<char>, Seq<char>)>,
)
    requires
        all_plain(a),
        all_plain(b),
        cache_key(a) == cache_key(b),
    ensures
        a == b,
    decreases a.len(),
{
    if a.len() == 0 {
        if b.len() > 0 {
            assert(cache_key(b).len() > 0);
        }
        assert(a =~= b);
    } else if b.len() == 0 {
        assert(cache_key(a).len() > 0);
    } else {
        let fa = a.drop_last();
        let fb = b.drop_last();
        let (na, va) = a.last();
        let (nb, vb) = b.last();
        assert(plain(a[a.len() - 1].0) && plain(a[a.len() - 1].1));
        assert(plain(b[b.len() - 1].0) && plain(b[b.len() - 1].1));
        lemma_last_word(cache_key(fa).push('_') + na, va, cache_key(fb).push('_') + nb, vb);
        lemma_last_word(cache_key(fa), na, cache_key(fb), nb);
        assert forall|i: int| 0 <= i < fa.len() implies plain((#[trigger] fa[i]).0) && plain(
            fa[i].1,
        ) by {
            assert(fa[i] == a[i]);
        }
        assert forall|i: int| 0 <= i < fb.len() implies plain((#[trigger] fb[i]).0) && plain(
            fb[i].1,
        ) by {
            assert(fb[i] == b[i]);
        }
        lemma_cache_key_injective(fa, fb);
        assert(a =~= fa.push(a.last()));
        assert(b =~= fb.push(b.last()));
    }
}

/// Configurations whose variables hold no `_` get the same output directory
/// exactly if they list the same variables with the same values in the same
/// order.
pub proof fn lemma_output_dir_tells_apart(
    a: Seq<(Seq<char>, Seq<char>)>,
    b: Seq<(Seq<char>, Seq<char>)>,
)
    requires
        all_plain(a),
        all_plain(b),
    ensures
        (output_dir(a) == output_dir(b)) <==> a == b,
{
    if output_dir(a) == output_dir(b) {
        let prefix = "target/"@;
        assert(cache_key(a) =~= output_dir(a).subrange(
            prefix.len() as int,
            output_dir(a).len() as int,
        ));
        assert(cache_key(b) =~= output_dir(b).subrange(
            prefix.len() as int,
            output_dir(b).len() as int,
        ));
        lemma_cache_key_injective(a, b);
    }
}

/// No `/` occurs in any name or value.
pub open spec fn all_slashless(env: Seq<(Seq<char>, Seq<char>)>) -> bool {
    forall|i: int|
        0 <= i < env.len() ==> (forall|k: int|
            0 <= k < (#[trigger] env[i]).0.len() ==> env[i].0[k] != '/') && (forall|k: int|
            0 <= k < env[i].1.len() ==> env[i].1[k] != '/')
}

/// The output directory is a relative path, and it ends in `/` only where
/// there are no variables.
proof fn lemma_output_dir_shape(env: Seq<(Seq<char>, Seq<char>)>)
    requires
        all_slashless(env),
    ensures
        output_dir(env).len() == 7 + cache_key(env).len(),
        output_dir(env)[0] != '/',
        env.len() == 0 <==> cache_key(env).len() == 0,
        env.len() == 0 <==> output_dir(env).last() == '/',
{
    reveal_strlit("target/");
    if env.len() > 0 {
        let (name, value) = env.last();
        let key = cache_key(env);
        assert(key == (cache_key(env.drop_last()).push('_') + name).push('_') + value);
        if value.len() > 0 {
            assert(key.last() == value.last());
            assert(env[env.len() - 1].1[value.len() - 1] != '/');
        } else {
            assert(key.last() == '_');
        }
        assert(output_dir(env).last() == key.last());
    } else {
        assert(output_dir(env) =~= "target/"@);
    }
}

/// Configurations of one module whose variables hold neither `_` nor `/`
/// write below the same directory exactly if they list the same variables
/// with the same values in the same order.
pub proof fn lemma_output_root_tells_apart(
    module_dir: Seq<char>,
    a: Seq<(Seq<char>, Seq<char>)>,
    b: Seq<(Seq<char>, Seq<char>)>,
)
    requires
        all_plain(a),
        all_plain(b),
        all_slashless(a),
        all_slashless(b),
    ensures
        (output_root(module_dir, a) == output_root(module_dir, b)) <==> a == b,
{
    if output_root(module_dir, a) == output_root(module_dir, b) {
        reveal_strlit("wasm32-unknown-unknown/");
        lemma_output_dir_shape(a);
        lemma_output_dir_shape(b);
        let triple = "wasm32-unknown-unknown/"@;
        let da = output_dir(a);
        let db = output_dir(b);
        let lead = if module_dir.len() == 0 || module_dir.last() == '/' {
            module_dir
        } else {
            module_dir.push('/')
        };
        let ba = joined(module_dir, da);
        let bb = joined(module_dir, db);
        assert(ba =~= lead + da);
        assert(bb =~= lead + db);
        assert(ba.last() == da.last());
        assert(bb.last() == db.last());
        let ra = output_root(module_dir, a);
        let rb = output_root(module_dir, b);
        assert(triple[0] != '/');
        if a.len() == 0 && b.len() == 0 {
            assert(a =~= b);
        } else if a.len() == 0 {
            assert(ra =~= ba + triple);
            assert(rb =~= bb.push('/') + triple);
            assert(ra.len() != rb.len());
        } else if b.len() == 0 {
            assert(ra =~= ba.push('/') + triple);
            assert(rb =~= bb + triple);
            assert(ra.len() != rb.len());
        } else {
            assert(ra =~= ba.push('/') + triple);
            assert(rb =~= bb.push('/') + triple);
            assert(da.len() == db.len());
            assert forall|i: int| 0 <= i < da.len() implies da[i] == db[i] by {
                assert(ra[lead.len() + i] == da[i]);
                assert(rb[lead.len() + i] == db[i]);
            }
            assert(da =~= db);
            lemma_output_dir_tells_apart(a, b);
        }
    }
}

} // verus!
