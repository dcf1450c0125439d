//! Keymap identity and the resolver that classifies what the desktop's
//! input-method service reports.
//!
//! The resolver tries the IME service first: a scheme named
//! `keyboard-<layout>` or `keyboard-<layout>-<variant>` yields that layout
//! directly; a known ideographic/handwriting IME, an unknown scheme, or a
//! failed query all fall back to the system keymap for the current display
//! protocol.

use vstd::prelude::*;

verus! {

/// A named keyboard layout plus variant, optionally exposing an AltGr
/// level.  Immutable once obtained; replaced wholesale on a layout change.
#[derive(Clone, Debug)]
pub struct Keymap {
    /// The layout name, when the producer yielded one.
    pub name: Option<String>,
    /// The layout variant (empty when none).
    pub variant: String,
    /// Whether the layout exposes an alternate-graphics modifier level.
    pub has_altgr: bool,
}

/// The layout name as a character sequence.
pub open spec fn keymap_name_view(k: Keymap) -> Option<Seq<char>> {
    match k.name {
        Some(n) => Some(n@),
        None => None,
    }
}

impl Keymap {
    /// A keymap built from an explicit layout and variant, as from a
    /// `<layout>-<variant>` configuration entry.
    pub fn from_layout_variant(layout: String, variant: String, has_altgr: bool) -> (r: Keymap)
        ensures
            keymap_name_view(r) == Some(layout@),
            r.variant@ == variant@,
            r.has_altgr == has_altgr,
    {
        Keymap { name: Some(layout), variant, has_altgr }
    }
}

/// No dash anywhere in `s`.
pub open spec fn dashless(s: Seq<char>) -> bool {
    forall|i: int| 0 <= i < s.len() ==> s[i] != '-'
}

/// `s` is exactly `keyboard-<l>` (when `v` is empty) or `keyboard-<l>-<v>`,
/// with `l` non-empty and both `l` and `v` free of dashes.
pub open spec fn scheme_decomposes(s: Seq<char>, l: Seq<char>, v: Seq<char>) -> bool {
    &&& l.len() > 0
    &&& dashless(l)
    &&& if v.len() == 0 {
        s == "keyboard-"@ + l
    } else {
        dashless(v) && s == "keyboard-"@ + l + "-"@ + v
    }
}

/// Relies on `regex::Regex::new` and `regex::Regex::captures` with the
/// anchored pattern `^keyboard-([^-]+)(?:-([^-]+))?$`: it matches the whole
/// string exactly when it is `keyboard-` followed by a non-empty dash-free
/// layout, optionally followed by a dash and a non-empty dash-free variant,
/// and captures the two parts (the missing variant becomes empty).
#[verifier::external_body]
fn match_keyboard_scheme(s: &str) -> (r: Option<(String, String)>)
    ensures
        match r {
            Some(lv) => scheme_decomposes(s@, lv.0@, lv.1@),
            None => forall|l: Seq<char>, v: Seq<char>| !scheme_decomposes(s@, l, v),
        },
{
    let re = regex::Regex::new(r"^keyboard-([^-]+)(?:-([^-]+))?$").unwrap();
    re.captures(s).map(|c| {
        (
            c.get(1).map_or("", |g| g.as_str()).to_string(),
            c.get(2).map_or("", |g| g.as_str()).to_string(),
        )
    })
}

/// The IME scheme names that are known whole-word input methods rather than
/// plain keyboard layouts.
pub open spec fn known_ime_alias(s: Seq<char>) -> bool {
    ||| s == "mozc"@
    ||| s == "pinyin"@
    ||| s == "hangul"@
    ||| s == "sayura"@
    ||| s == "unikey"@
}

/// Whether `s` names a known ideographic/handwriting input method.
pub fn is_known_ime_alias(s: &String) -> (r: bool)
    ensures
        r == known_ime_alias(s@),
{
    let mozc: String = "mozc".to_owned();
    let pinyin: String = "pinyin".to_owned();
    let hangul: String = "hangul".to_owned();
    let sayura: String = "sayura".to_owned();
    let unikey: String = "unikey".to_owned();
    *s == mozc || *s == pinyin || *s == hangul || *s == sayura || *s == unikey
}

/// How an IME scheme name classifies.
#[derive(Debug)]
pub enum SchemeClass {
    /// A plain keyboard scheme: use this layout and variant directly.
    Keyboard { layout: String, variant: String },
    /// A known whole-word input method: fall back to the system keymap.
    KnownIme,
    /// Anything else: fall back to the system keymap (worth a warning).
    Unknown,
}

/// Classifies the scheme name reported by the IME service.  Exactly the
/// strings of the form `keyboard-<layout>(-<variant>)?` classify as
/// `Keyboard`; of the rest, the known input-method names classify as
/// `KnownIme` and everything else as `Unknown`.
pub fn classify_ime_scheme(scheme: &String) -> (r: SchemeClass)
    ensures
        match r {
            SchemeClass::Keyboard { layout, variant } => scheme_decomposes(
                scheme@,
                layout@,
                variant@,
            ),
            SchemeClass::KnownIme => (forall|l: Seq<char>, v: Seq<char>| !scheme_decomposes(
                scheme@,
                l,
                v,
            )) && known_ime_alias(scheme@),
            SchemeClass::Unknown => (forall|l: Seq<char>, v: Seq<char>| !scheme_decomposes(
                scheme@,
                l,
                v,
            )) && !known_ime_alias(scheme@),
        },
{
    match match_keyboard_scheme(scheme.as_str()) {
        Some((layout, variant)) => SchemeClass::Keyboard { layout, variant },
        None => {
            if is_known_ime_alias(scheme) {
                SchemeClass::KnownIme
            } else {
                SchemeClass::Unknown
            }
        },
    }
}

/// Where the effective keymap comes from.
#[derive(Debug)]
pub enum KeymapSource {
    /// Compile this layout and variant, reported by the IME service.
    FromIme { layout: String, variant: String },
    /// Query the system keymap for the current display protocol.
    System,
}

/// The resolver's decision: a scheme of the form
/// `keyboard-<layout>(-<variant>)?` yields its layout directly; a failed
/// IME query (`None`), a known whole-word input method, or an unknown
/// scheme falls back to the system keymap.
pub fn effective_keymap_source(ime_scheme: Option<String>) -> (r: KeymapSource)
    ensures
        match ime_scheme {
            None => r is System,
            Some(s) => match r {
                KeymapSource::FromIme { layout, variant } => scheme_decomposes(
                    s@,
                    layout@,
                    variant@,
                ),
                KeymapSource::System => forall|l: Seq<char>, v: Seq<char>| !scheme_decomposes(
                    s@,
                    l,
                    v,
                ),
            },
        },
{
    match ime_scheme {
        None => KeymapSource::System,
        Some(s) => match classify_ime_scheme(&s) {
            SchemeClass::Keyboard { layout, variant } => KeymapSource::FromIme { layout, variant },
            SchemeClass::KnownIme => KeymapSource::System,
            SchemeClass::Unknown => KeymapSource::System,
        },
    }
}

/// Index of the first dash in `s`, or `s.len()` when there is none.
pub open spec fn first_dash_index(s: Seq<char>) -> int
    decreases s.len(),
{
    if s.len() == 0 {
        0
    } else if s[0] == '-' {
        0
    } else {
        1 + first_dash_index(s.drop_first())
    }
}

proof fn lemma_first_dash_index(s: Seq<char>, i: int)
    requires
        0 <= i <= s.len(),
        forall|j: int| 0 <= j < i ==> s[j] != '-',
        i < s.len() ==> s[i] == '-',
    ensures
        first_dash_index(s) == i,
    decreases i,
{
    if s.len() == 0 {
    } else if i == 0 {
    } else {
        assert(s[0] != '-');
        lemma_first_dash_index(s.drop_first(), i - 1);
    }
}

/// The copy of `s[from..to]`.
fn subrange_chars(s: &Vec<char>, from: usize, to: usize) -> (r: Vec<char>)
    requires
        from <= to <= s.len(),
    ensures
        r@ == s@.subrange(from as int, to as int),
{
    let mut r: Vec<char> = Vec::new();
    let mut i: usize = from;
    while i < to
        invariant
            from <= i <= to <= s.len(),
            r@ == s@.subrange(from as int, i as int),
        decreases to - i,
    {
        r.push(s[i]);
        proof {
            assert(s@.subrange(from as int, i + 1) == s@.subrange(from as int, i as int).push(
                s@[i as int],
            ));
        }
        i += 1;
    }
    r
}

/// Position of the first dash at or after `from`, or `s.len()`.
fn find_dash(s: &Vec<char>, from: usize) -> (r: usize)
    requires
        from <= s.len(),
    ensures
        from <= r <= s.len(),
        r - from == first_dash_index(s@.skip(from as int)),
{
    let mut i: usize = from;
    while i < s.len()
        invariant
            from <= i <= s.len(),
            forall|j: int| from <= j < i ==> s@[j] != '-',
        decreases s.len() - i,
    {
        if s[i] == '-' {
            proof {
                lemma_first_dash_index(s@.skip(from as int), i - from);
            }
            return i;
        }
        i += 1;
    }
    proof {
        lemma_first_dash_index(s@.skip(from as int), s@.len() - from);
    }
    s.len()
}

/// Splits a configured default-keymap entry into its layout part (up to the
/// first dash) and its variant part (between the first and second dash);
/// anything after a second dash is ignored, and a missing part is empty.
pub fn split_layout_variant(s: &Vec<char>) -> (r: (Vec<char>, Vec<char>))
    ensures
        ({
            let p1 = first_dash_index(s@);
            &&& r.0@ == s@.take(p1)
            &&& r.1@ == if p1 == s@.len() {
                Seq::<char>::empty()
            } else {
                let rest = s@.skip(p1 + 1);
                rest.take(first_dash_index(rest))
            }
        }),
{
    let p1 = find_dash(s, 0);
    proof {
        assert(s@.skip(0) == s@);
    }
    let layout = subrange_chars(s, 0, p1);
    proof {
        assert(s@.subrange(0, p1 as int) == s@.take(p1 as int));
    }
    if p1 == s.len() {
        (layout, Vec::new())
    } else {
        let p2 = find_dash(s, p1 + 1);
        let variant = subrange_chars(s, p1 + 1, p2);
        proof {
            let rest = s@.skip(p1 + 1);
            assert(s@.subrange(p1 + 1, p2 as int) == rest.take(first_dash_index(rest)));
        }
        (layout, variant)
    }
}

/// The initial keymap for a fresh keyboard: the resolved effective keymap
/// when there is one, else the configured fallback; and no keymap at all
/// when automatic labelling is disabled.
pub fn choose_initial_keymap(
    effective: Option<Keymap>,
    fallback: Option<Keymap>,
    auto_labels: bool,
) -> (r: Option<Keymap>)
    ensures
        r == if !auto_labels {
            None::<Keymap>
        } else if effective is Some {
            effective
        } else {
            fallback
        },
{
    if !auto_labels {
        None
    } else {
        match effective {
            Some(k) => Some(k),
            None => fallback,
        }
    }
}

} // verus!
