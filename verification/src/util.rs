//! Pure helpers behind the asset discovery plumbing: string comparison,
//! the "long extension" of a file name (everything after the first dot),
//! root-relative asset paths, and the asset directory choice.

use vstd::prelude::*;
use vstd::string::StrSliceExecFns;
use vstd::string::StringExecFns;

verus! {

/// Whether two string slices hold the same characters.
pub fn str_eq(a: &str, b: &str) -> (r: bool)
    ensures
        r == (a@ == b@),
{
    let alen = a.unicode_len();
    let blen = b.unicode_len();
    if alen != blen {
        return false;
    }
    let mut i: usize = 0;
    while i < alen
        invariant
            alen == a@.len(),
            alen == b@.len(),
            i <= alen,
            forall|j: int| 0 <= j < i ==> a@[j] == b@[j],
        decreases alen - i,
    {
        if a.get_char(i) != b.get_char(i) {
            return false;
        }
        i += 1;
    }
    proof {
        assert(a@ =~= b@);
    }
    true
}

/// The "long extension" of a file name: everything after the first dot,
/// or nothing when the name holds no dot. The name `a.tile.json` has the
/// long extension `tile.json`.
pub open spec fn spec_long_ext(s: Seq<char>) -> Option<Seq<char>>
    decreases s.len(),
{
    if s.len() == 0 {
        None
    } else if s[0] == '.' {
        Some(s.subrange(1, s.len() as int))
    } else {
        spec_long_ext(s.subrange(1, s.len() as int))
    }
}

proof fn lemma_long_ext_at_first_dot(s: Seq<char>, i: int)
    requires
        0 <= i < s.len(),
        s[i] == '.',
        forall|j: int| 0 <= j < i ==> s[j] != '.',
    ensures
        spec_long_ext(s) == Some(s.subrange(i + 1, s.len() as int)),
    decreases i,
{
    if i == 0 {
    } else {
        let t = s.subrange(1, s.len() as int);
        assert(t[i - 1] == s[i]);
        assert forall|j: int| 0 <= j < i - 1 implies t[j] != '.' by {
            assert(t[j] == s[j + 1]);
        }
        lemma_long_ext_at_first_dot(t, i - 1);
        assert(t.subrange(i, t.len() as int) =~= s.subrange(i + 1, s.len() as int));
    }
}

proof fn lemma_long_ext_no_dot(s: Seq<char>)
    requires
        forall|j: int| 0 <= j < s.len() ==> s[j] != '.',
    ensures
        spec_long_ext(s) is None,
    decreases s.len(),
{
    if s.len() > 0 {
        let t = s.subrange(1, s.len() as int);
        assert forall|j: int| 0 <= j < t.len() implies t[j] != '.' by {
            assert(t[j] == s[j + 1]);
        }
        lemma_long_ext_no_dot(t);
    }
}

/// The long extension of `name`: the characters after the first dot.
pub fn long_ext<'a>(name: &'a str) -> (r: Option<&'a str>)
    ensures
        match r {
            Some(e) => spec_long_ext(name@) == Some(e@),
            None => spec_long_ext(name@) is None,
        },
{
    let len = name.unicode_len();
    let mut i: usize = 0;
    while i < len
        invariant
            len == name@.len(),
            i <= len,
            forall|j: int| 0 <= j < i ==> name@[j] != '.',
        decreases len - i,
    {
        if name.get_char(i) == '.' {
            let e = name.substring_char(i + 1, len);
            proof {
                lemma_long_ext_at_first_dot(name@, i as int);
            }
            return Some(e);
        }
        i += 1;
    }
    proof {
        lemma_long_ext_no_dot(name@);
    }
    None
}

/// Whether `name` is the file name of a tile configuration: its long
/// extension is exactly `tile.json`.
pub fn is_tile_config_name(name: &str) -> (r: bool)
    ensures
        r == (spec_long_ext(name@) == Some("tile.json"@)),
{
    match long_ext(name) {
        Some(e) => str_eq(e, "tile.json"),
        None => false,
    }
}

/// Strips the asset root from the front of a discovered path; nothing when
/// the path does not start with the root.
pub fn asset_relative_path<'a>(path: &'a str, root: &str) -> (r: Option<&'a str>)
    ensures
        match r {
            Some(rest) => path@ == root@ + rest@,
            None => !(root@.len() <= path@.len() && path@.subrange(0, root@.len() as int)
                == root@),
        },
{
    let plen = path.unicode_len();
    let rlen = root.unicode_len();
    if rlen > plen {
        return None;
    }
    let mut i: usize = 0;
    while i < rlen
        invariant
            plen == path@.len(),
            rlen == root@.len(),
            rlen <= plen,
            i <= rlen,
            forall|j: int| 0 <= j < i ==> path@[j] == root@[j],
        decreases rlen - i,
    {
        if path.get_char(i) != root.get_char(i) {
            proof {
                assert(path@.subrange(0, rlen as int)[i as int] != root@[i as int]);
            }
            return None;
        }
        i += 1;
    }
    let rest = path.substring_char(rlen, plen);
    proof {
        assert(path@ =~= root@ + rest@);
    }
    Some(rest)
}

/// The asset directory derived from the environment: the engine's asset
/// root when set, else the manifest directory, with `/assets/` appended;
/// `./assets/` when neither is set.
pub fn asset_dir_from(bevy_root: Option<String>, manifest_dir: Option<String>) -> (r: String)
    ensures
        match bevy_root {
            Some(b) => r@ == b@ + "/assets/"@,
            None => match manifest_dir {
                Some(m) => r@ == m@ + "/assets/"@,
                None => r@ == "./assets/"@,
            },
        },
{
    match bevy_root {
        Some(b) => b.concat("/assets/"),
        None => match manifest_dir {
            Some(m) => m.concat("/assets/"),
            None => String::from_str("./assets/"),
        },
    }
}

} // verus!
