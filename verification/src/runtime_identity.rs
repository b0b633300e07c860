//! What the running app reports about itself: its names, its executable,
//! and the path that System Settings should be pointed at when asking for
//! a permission (the `.app` bundle when there is one).
use vstd::prelude::*;

use crate::text::{chars_of, owned, string_from_chars};

verus! {

pub const DISPLAY_NAME: &'static str = "Morrow";

pub const BUNDLE_IDENTIFIER: &'static str = "dev.morrow.desktop";

/// The directory that holds the executable inside an app bundle.
pub const BUNDLE_EXECUTABLE_DIR: &'static str = ".app/Contents/MacOS";

/// What follows the bundle path in the executable's directory.
pub const BUNDLE_CONTENTS_SUFFIX: &'static str = "/Contents/MacOS";

#[derive(Debug, Clone, Copy, PartialEq, Eq, Structural)]
pub enum RuntimeKind {
    AppBundle,
    Binary,
}

#[derive(Debug)]
pub struct RuntimeIdentity {
    pub display_name: String,
    pub bundle_identifier: String,
    pub executable_path: String,
    pub settings_target_path: String,
    pub runtime_kind: RuntimeKind,
}

/// The index of the last `/` of `p` before `k`, or -1.
pub open spec fn last_slash_before(p: Seq<char>, k: int) -> int
    decreases k,
{
    if k <= 0 {
        -1
    } else if p[k - 1] == '/' {
        k - 1
    } else {
        last_slash_before(p, k - 1)
    }
}

/// The directory part of a path: what comes before its last `/`.
pub open spec fn directory_of(p: Seq<char>) -> Option<Seq<char>> {
    let j = last_slash_before(p, p.len() as int);
    if j < 0 {
        None
    } else {
        Some(p.take(j))
    }
}

/// The app bundle that holds an executable: its directory must be
/// `<name>.app/Contents/MacOS` with a non-empty `<name>`, and the bundle
/// is the directory without `/Contents/MacOS`.
pub open spec fn app_bundle_of(p: Seq<char>) -> Option<Seq<char>> {
    match directory_of(p) {
        Some(dir) => {
            let tail = BUNDLE_EXECUTABLE_DIR@;
            if dir.len() > tail.len() && dir.skip(dir.len() - tail.len()) == tail {
                Some(dir.take(dir.len() - BUNDLE_CONTENTS_SUFFIX@.len()))
            } else {
                None
            }
        },
        None => None,
    }
}

proof fn lemma_last_slash_before(p: Seq<char>, k: int)
    requires
        0 <= k <= p.len(),
    ensures
        -1 <= last_slash_before(p, k) < k,
    decreases k,
{
    if k > 0 && p[k - 1] != '/' {
        lemma_last_slash_before(p, k - 1);
    }
}

/// The bundle found for an executable is a `.app` directory that contains
/// it: a proper prefix of the executable's path, ending in `.app`.
pub proof fn law_bundle_contains_executable(executable_path: Seq<char>)
    ensures
        app_bundle_of(executable_path) matches Some(bundle) ==> {
            &&& bundle.len() < executable_path.len()
            &&& executable_path.take(bundle.len() as int) == bundle
            &&& bundle.skip(bundle.len() - 4) == ".app"@
        },
{
    reveal_strlit(".app/Contents/MacOS");
    reveal_strlit("/Contents/MacOS");
    reveal_strlit(".app");
    let p = executable_path;
    lemma_last_slash_before(p, p.len() as int);
    if let Some(bundle) = app_bundle_of(p) {
        let j = last_slash_before(p, p.len() as int);
        let dir = p.take(j);
        let tail = BUNDLE_EXECUTABLE_DIR@;
        assert(dir.skip(dir.len() - tail.len()) == tail);
        assert(bundle == dir.take(dir.len() - 15));
        assert(p.take(bundle.len() as int) =~= bundle);
        assert forall|i: int| 0 <= i < 4 implies #[trigger] bundle.skip(bundle.len() - 4)[i]
            == ".app"@[i] by {
            assert(bundle.skip(bundle.len() - 4)[i] == dir[dir.len() - 19 + i]);
            assert(dir[dir.len() - 19 + i] == tail[i]);
        }
        assert(bundle.skip(bundle.len() - 4) =~= ".app"@);
    }
}

/// The identity of the app run from `executable_path`: an app bundle's
/// executable points Settings at the bundle; any other executable is a
/// plain binary and points Settings at itself.
pub fn runtime_identity_from_executable_path(executable_path: &str) -> (r: RuntimeIdentity)
    ensures
        r.display_name@ == DISPLAY_NAME@,
        r.bundle_identifier@ == BUNDLE_IDENTIFIER@,
        r.executable_path@ == executable_path@,
        app_bundle_of(executable_path@) matches Some(bundle) ==> r.runtime_kind
            == RuntimeKind::AppBundle && r.settings_target_path@ == bundle,
        app_bundle_of(executable_path@) is None ==> r.runtime_kind == RuntimeKind::Binary
            && r.settings_target_path@ == executable_path@,
{
    let p = chars_of(executable_path);
    let tail = chars_of(BUNDLE_EXECUTABLE_DIR);
    let suffix = chars_of(BUNDLE_CONTENTS_SUFFIX);
    proof {
        reveal_strlit(".app/Contents/MacOS");
        reveal_strlit("/Contents/MacOS");
    }
    let mut k: usize = p.len();
    while k > 0 && p[k - 1] != '/'
        invariant
            k <= p@.len(),
            last_slash_before(p@, p@.len() as int) == last_slash_before(p@, k as int),
        decreases k,
    {
        k = k - 1;
    }
    proof {
        lemma_last_slash_before(p@, p@.len() as int);
    }
    let mut bundle: Option<Vec<char>> = None;
    if k > 0 {
        let dir_len = k - 1;
        assert(last_slash_before(p@, p@.len() as int) == dir_len);
        if dir_len > tail.len() {
            let start = dir_len - tail.len();
            let mut same = true;
            let mut i: usize = 0;
            while i < tail.len()
                invariant
                    start + tail@.len() == dir_len,
                    dir_len < p@.len(),
                    i <= tail@.len(),
                    same <==> (forall|m: int| 0 <= m < i ==> p@[start + m] == tail@[m]),
                decreases tail@.len() - i,
            {
                if p[start + i] != tail[i] {
                    same = false;
                }
                i = i + 1;
            }
            let ghost dir = p@.take(dir_len as int);
            assert(dir.skip(start as int).len() == tail@.len());
            if same {
                assert(dir.skip(start as int) =~= tail@);
                let keep = dir_len - suffix.len();
                let mut b: Vec<char> = Vec::new();
                for j in 0..keep
                    invariant
                        keep < p@.len(),
                        b@ == p@.take(j as int),
                {
                    b.push(p[j]);
                    assert(p@.take(j + 1) == p@.take(j as int).push(p@[j as int]));
                }
                assert(b@ =~= dir.take(dir.len() - BUNDLE_CONTENTS_SUFFIX@.len()));
                bundle = Some(b);
            } else {
                assert(dir.skip(start as int) != tail@) by {
                    let m = choose|m: int| 0 <= m < tail@.len() && p@[start + m] != tail@[m];
                    assert(dir.skip(start as int)[m] == p@[start + m]);
                }
            }
        }
    }
    match bundle {
        Some(b) => RuntimeIdentity {
            display_name: owned(DISPLAY_NAME),
            bundle_identifier: owned(BUNDLE_IDENTIFIER),
            executable_path: owned(executable_path),
            settings_target_path: string_from_chars(&b),
            runtime_kind: RuntimeKind::AppBundle,
        },
        None => RuntimeIdentity {
            display_name: owned(DISPLAY_NAME),
            bundle_identifier: owned(BUNDLE_IDENTIFIER),
            executable_path: owned(executable_path),
            settings_target_path: owned(executable_path),
            runtime_kind: RuntimeKind::Binary,
        },
    }
}

/// The identity of the running app, given where its executable is (the
/// lookup is the caller's), or the lookup's error.
pub fn runtime_identity_from_current_executable(executable: Result<String, String>) -> (r: Result<
    RuntimeIdentity,
    String,
>)
    ensures
        executable matches Err(e) ==> (r matches Err(f) && f@ == e@),
        executable matches Ok(path) ==> (r matches Ok(identity) && identity.executable_path@
            == path@ && identity.display_name@ == DISPLAY_NAME@ && identity.bundle_identifier@
            == BUNDLE_IDENTIFIER@ && (app_bundle_of(path@) matches Some(bundle)
            ==> identity.settings_target_path@ == bundle) && (app_bundle_of(path@) is None
            ==> identity.settings_target_path@ == path@)),
{
    match executable {
        Ok(path) => Ok(runtime_identity_from_executable_path(path.as_str())),
        Err(e) => Err(e),
    }
}

} // verus!
