//! The user's preferences: the two global shortcuts, autostart, the size of
//! the history, image capture and the applications never captured from.
//! Reading and writing `settings.json` happens in the application.
use vstd::prelude::*;

use crate::strings::same_text;

verus! {

/// The user's preferences.
#[derive(Debug, Clone)]
pub struct Settings {
    pub paste_shortcut: String,
    pub paste_plain_shortcut: String,
    pub autostart: bool,
    pub max_items: i64,
    pub capture_images: bool,
    pub exclude_apps: Vec<String>,
}

/// The preferences of a fresh installation: paste on `Control+Alt+V`, plain
/// paste on `Control+Alt+B`, no autostart, 500 clips kept, images captured,
/// no application excluded.
pub open spec fn is_default_settings(s: Settings) -> bool {
    &&& s.paste_shortcut@ == "Control+Alt+V"@
    &&& s.paste_plain_shortcut@ == "Control+Alt+B"@
    &&& !s.autostart
    &&& s.max_items == 500
    &&& s.capture_images
    &&& s.exclude_apps@.len() == 0
}

impl Default for Settings {
    fn default() -> (s: Self)
        ensures
            is_default_settings(s),
    {
        Settings {
            paste_shortcut: "Control+Alt+V".to_string(),
            paste_plain_shortcut: "Control+Alt+B".to_string(),
            autostart: false,
            max_items: 500,
            capture_images: true,
            exclude_apps: Vec::new(),
        }
    }
}

/// The preferences in effect after start-up: those read from the settings
/// file, or the defaults where the file could not be read or parsed.
pub fn loaded_or_default(parsed: Option<Settings>) -> (s: Settings)
    ensures
        parsed matches Some(p) ==> s == p,
        parsed is None ==> is_default_settings(s),
{
    match parsed {
        Some(p) => p,
        None => Settings::default(),
    }
}

/// How the global shortcuts change when settings are saved: first every
/// shortcut in `unregister` is released, then every shortcut in `register`
/// is claimed. Releasing all before claiming any keeps a swap of the two
/// shortcuts from releasing one that was just claimed.
#[derive(Debug)]
pub struct ShortcutPlan {
    pub unregister: Vec<String>,
    pub register: Vec<String>,
}

/// The characters of each string of `v`, in order.
pub open spec fn texts(v: Seq<String>) -> Seq<Seq<char>> {
    v.map_values(|s: String| s@)
}

/// Of the shortcuts paste `old` to `new` and plain paste `old_plain` to
/// `new_plain`, the old ones that changed: the paste shortcut first.
pub open spec fn released_shortcuts(
    old_paste: Seq<char>,
    old_plain: Seq<char>,
    new_paste: Seq<char>,
    new_plain: Seq<char>,
) -> Seq<Seq<char>> {
    (if new_paste != old_paste { seq![old_paste] } else { Seq::empty() }) + (if new_plain
        != old_plain {
        seq![old_plain]
    } else {
        Seq::empty()
    })
}

/// The new shortcuts that changed: the paste shortcut first.
pub open spec fn claimed_shortcuts(
    old_paste: Seq<char>,
    old_plain: Seq<char>,
    new_paste: Seq<char>,
    new_plain: Seq<char>,
) -> Seq<Seq<char>> {
    (if new_paste != old_paste { seq![new_paste] } else { Seq::empty() }) + (if new_plain
        != old_plain {
        seq![new_plain]
    } else {
        Seq::empty()
    })
}

/// The registered shortcuts after a plan runs on `registered`: the released
/// ones removed, then the claimed ones added.
pub open spec fn after_plan(
    registered: Set<Seq<char>>,
    released: Seq<Seq<char>>,
    claimed: Seq<Seq<char>>,
) -> Set<Seq<char>> {
    registered.difference(released.to_set()).union(claimed.to_set())
}

/// Saving settings whose shortcuts did not change moves no shortcut.
pub proof fn lemma_unchanged_shortcuts_stay(paste: Seq<char>, plain: Seq<char>)
    ensures
        released_shortcuts(paste, plain, paste, plain).len() == 0,
        claimed_shortcuts(paste, plain, paste, plain).len() == 0,
{
}

/// After the shortcuts change from two different registered shortcuts
/// `old_paste`, `old_plain` to `new_paste`, `new_plain`, both new shortcuts
/// are registered, a swap of the two included, and an old shortcut that is
/// neither new one is not.
pub proof fn lemma_plan_registers_new_shortcuts(
    registered: Set<Seq<char>>,
    old_paste: Seq<char>,
    old_plain: Seq<char>,
    new_paste: Seq<char>,
    new_plain: Seq<char>,
)
    requires
        registered.contains(old_paste),
        registered.contains(old_plain),
        old_paste != old_plain,
    ensures
        ({
            let after = after_plan(
                registered,
                released_shortcuts(old_paste, old_plain, new_paste, new_plain),
                claimed_shortcuts(old_paste, old_plain, new_paste, new_plain),
            );
            &&& after.contains(new_paste)
            &&& after.contains(new_plain)
            &&& (old_paste != new_paste && old_paste != new_plain) ==> !after.contains(old_paste)
            &&& (old_plain != new_paste && old_plain != new_plain) ==> !after.contains(old_plain)
        }),
{
    let released = released_shortcuts(old_paste, old_plain, new_paste, new_plain);
    let claimed = claimed_shortcuts(old_paste, old_plain, new_paste, new_plain);
    let p = new_paste != old_paste;
    let q = new_plain != old_plain;
    if p && q {
        assert(released =~= seq![old_paste, old_plain]);
        assert(claimed =~= seq![new_paste, new_plain]);
    } else if p {
        assert(released =~= seq![old_paste]);
        assert(claimed =~= seq![new_paste]);
    } else if q {
        assert(released =~= seq![old_plain]);
        assert(claimed =~= seq![new_plain]);
    } else {
        assert(released =~= Seq::<Seq<char>>::empty());
        assert(claimed =~= Seq::<Seq<char>>::empty());
    }
    assert(released.contains(old_paste) <==> p || (q && old_paste == old_plain)) by {
        if p { assert(released[0] == old_paste); }
        if q && old_paste == old_plain { assert(released[released.len() - 1] == old_plain); }
    }
    assert(released.contains(old_plain) <==> q || (p && old_plain == old_paste)) by {
        if q { assert(released[released.len() - 1] == old_plain); }
        if p && old_plain == old_paste { assert(released[0] == old_paste); }
    }
    assert(p ==> claimed.contains(new_paste)) by {
        if p { assert(claimed[0] == new_paste); }
    }
    assert(q ==> claimed.contains(new_plain)) by {
        if q { assert(claimed[claimed.len() - 1] == new_plain); }
    }
    assert(forall|x: Seq<char>| claimed.contains(x) ==> x == new_paste || x == new_plain);
    assert(forall|x: Seq<char>| released.contains(x) ==> x == old_paste || x == old_plain);
    let after = after_plan(registered, released, claimed);
    assert(after.contains(new_paste)) by {
        if !p {
            assert(!released.contains(new_paste));
        }
    }
    assert(after.contains(new_plain)) by {
        if !q {
            assert(!released.contains(new_plain));
        }
    }
}

/// The shortcut changes when the settings change from shortcuts `old_paste`
/// and `old_plain` to `new`: release each changed old shortcut, then claim
/// each changed new one, the paste shortcut first in both.
pub fn shortcut_updates(old_paste: &str, old_plain: &str, new: &Settings) -> (plan: ShortcutPlan)
    ensures
        texts(plan.unregister@) == released_shortcuts(
            old_paste@,
            old_plain@,
            new.paste_shortcut@,
            new.paste_plain_shortcut@,
        ),
        texts(plan.register@) == claimed_shortcuts(
            old_paste@,
            old_plain@,
            new.paste_shortcut@,
            new.paste_plain_shortcut@,
        ),
{
    let mut unregister: Vec<String> = Vec::new();
    let mut register: Vec<String> = Vec::new();
    if !same_text(new.paste_shortcut.as_str(), old_paste) {
        unregister.push(old_paste.to_string());
        register.push(new.paste_shortcut.clone());
    }
    if !same_text(new.paste_plain_shortcut.as_str(), old_plain) {
        unregister.push(old_plain.to_string());
        register.push(new.paste_plain_shortcut.clone());
    }
    assert(texts(unregister@) =~= released_shortcuts(
        old_paste@,
        old_plain@,
        new.paste_shortcut@,
        new.paste_plain_shortcut@,
    ));
    assert(texts(register@) =~= claimed_shortcuts(
        old_paste@,
        old_plain@,
        new.paste_shortcut@,
        new.paste_plain_shortcut@,
    ));
    ShortcutPlan { unregister, register }
}

} // verus!
