//! Key events and their classification.

use vstd::prelude::*;
use vstd::string::StrSliceExecFns;

verus! {

/// The identity of a pressed key, one variant per key that the capture
/// hook reports.
#[derive(Debug, Clone, Copy, PartialEq, Eq, Structural)]
pub enum RawKey {
    Alt,
    AltGr,
    Backspace,
    CapsLock,
    ControlLeft,
    ControlRight,
    Delete,
    DownArrow,
    End,
    Escape,
    F1,
    F10,
    F11,
    F12,
    F2,
    F3,
    F4,
    F5,
    F6,
    F7,
    F8,
    F9,
    Home,
    LeftArrow,
    MetaLeft,
    MetaRight,
    PageDown,
    PageUp,
    Return,
    RightArrow,
    ShiftLeft,
    ShiftRight,
    Space,
    Tab,
    UpArrow,
    PrintScreen,
    ScrollLock,
    Pause,
    NumLock,
    BackQuote,
    Num1,
    Num2,
    Num3,
    Num4,
    Num5,
    Num6,
    Num7,
    Num8,
    Num9,
    Num0,
    Minus,
    Equal,
    KeyQ,
    KeyW,
    KeyE,
    KeyR,
    KeyT,
    KeyY,
    KeyU,
    KeyI,
    KeyO,
    KeyP,
    LeftBracket,
    RightBracket,
    KeyA,
    KeyS,
    KeyD,
    KeyF,
    KeyG,
    KeyH,
    KeyJ,
    KeyK,
    KeyL,
    SemiColon,
    Quote,
    BackSlash,
    IntlBackslash,
    KeyZ,
    KeyX,
    KeyC,
    KeyV,
    KeyB,
    KeyN,
    KeyM,
    Comma,
    Dot,
    Slash,
    Insert,
    KpReturn,
    KpMinus,
    KpPlus,
    KpMultiply,
    KpDivide,
    Kp0,
    Kp1,
    Kp2,
    Kp3,
    Kp4,
    Kp5,
    Kp6,
    Kp7,
    Kp8,
    Kp9,
    KpDelete,
    Function,
    /// A key without a name of its own, by its platform code.
    Unknown(u32),
}

/// The semantic kind of a key press.
#[derive(Debug, Clone, Copy, PartialEq, Eq, Structural)]
pub enum KeyEventType {
    Character,
    Space,
    Enter,
    Backspace,
    Tab,
    Other,
}

/// Letter, digit and punctuation keys: those that type a character.
pub open spec fn printable(key: RawKey) -> bool {
    match key {
        RawKey::KeyA | RawKey::KeyB | RawKey::KeyC | RawKey::KeyD | RawKey::KeyE | RawKey::KeyF
            | RawKey::KeyG | RawKey::KeyH | RawKey::KeyI | RawKey::KeyJ | RawKey::KeyK
            | RawKey::KeyL | RawKey::KeyM | RawKey::KeyN | RawKey::KeyO | RawKey::KeyP
            | RawKey::KeyQ | RawKey::KeyR | RawKey::KeyS | RawKey::KeyT | RawKey::KeyU
            | RawKey::KeyV | RawKey::KeyW | RawKey::KeyX | RawKey::KeyY | RawKey::KeyZ
            | RawKey::Num0 | RawKey::Num1 | RawKey::Num2 | RawKey::Num3 | RawKey::Num4
            | RawKey::Num5 | RawKey::Num6 | RawKey::Num7 | RawKey::Num8 | RawKey::Num9
            | RawKey::Comma | RawKey::Dot | RawKey::Slash | RawKey::SemiColon | RawKey::Quote
            | RawKey::LeftBracket | RawKey::RightBracket | RawKey::BackSlash | RawKey::Minus
            | RawKey::Equal | RawKey::BackQuote => true,
        _ => false,
    }
}

/// The kind that a raw key classifies as.
pub open spec fn kind_of(key: RawKey) -> KeyEventType {
    match key {
        RawKey::Space => KeyEventType::Space,
        RawKey::Return => KeyEventType::Enter,
        RawKey::Backspace => KeyEventType::Backspace,
        RawKey::Tab => KeyEventType::Tab,
        _ => if printable(key) {
            KeyEventType::Character
        } else {
            KeyEventType::Other
        },
    }
}

/// A kind that ends a word: space, tab or enter.
pub open spec fn boundary(kind: KeyEventType) -> bool {
    kind == KeyEventType::Space || kind == KeyEventType::Enter || kind == KeyEventType::Tab
}

impl KeyEventType {
    /// Classifies a raw key; keys without a meaning for typing become `Other`.
    pub fn from_key(key: RawKey) -> (r: KeyEventType)
        ensures
            r == kind_of(key),
    {
        match key {
            RawKey::Space => KeyEventType::Space,
            RawKey::Return => KeyEventType::Enter,
            RawKey::Backspace => KeyEventType::Backspace,
            RawKey::Tab => KeyEventType::Tab,
            RawKey::KeyA | RawKey::KeyB | RawKey::KeyC | RawKey::KeyD | RawKey::KeyE
                | RawKey::KeyF | RawKey::KeyG | RawKey::KeyH | RawKey::KeyI | RawKey::KeyJ
                | RawKey::KeyK | RawKey::KeyL | RawKey::KeyM | RawKey::KeyN | RawKey::KeyO
                | RawKey::KeyP | RawKey::KeyQ | RawKey::KeyR | RawKey::KeyS | RawKey::KeyT
                | RawKey::KeyU | RawKey::KeyV | RawKey::KeyW | RawKey::KeyX | RawKey::KeyY
                | RawKey::KeyZ => KeyEventType::Character,
            RawKey::Num0 | RawKey::Num1 | RawKey::Num2 | RawKey::Num3 | RawKey::Num4
                | RawKey::Num5 | RawKey::Num6 | RawKey::Num7 | RawKey::Num8 | RawKey::Num9 => KeyEventType::Character,
            RawKey::Comma | RawKey::Dot | RawKey::Slash | RawKey::SemiColon | RawKey::Quote
                | RawKey::LeftBracket | RawKey::RightBracket | RawKey::BackSlash
                | RawKey::Minus | RawKey::Equal | RawKey::BackQuote => KeyEventType::Character,
            _ => KeyEventType::Other,
        }
    }

    pub fn is_word_boundary(&self) -> (r: bool)
        ensures
            r == boundary(*self),
    {
        match self {
            KeyEventType::Space | KeyEventType::Enter | KeyEventType::Tab => true,
            _ => false,
        }
    }
}

/// The application in the foreground.
pub struct ActiveApp {
    /// Display name of the application.
    pub name: String,
    /// Stable identifier: bundle id or process name.
    pub bundle_id: String,
}

/// The position of the first NUL character of `s` at or after `from`; the
/// length of `s` where there is none.
pub open spec fn first_nul(s: Seq<char>, from: int) -> int
    decreases s.len() - from,
{
    if from >= s.len() {
        s.len() as int
    } else if s[from] == '\0' {
        from
    } else {
        first_nul(s, from + 1)
    }
}

/// The class name of a window's class property, which holds the instance
/// name and the class name, each ended by NUL: the second field, or the whole
/// text where it has no NUL.
pub open spec fn class_name(class: Seq<char>) -> Seq<char> {
    let i = first_nul(class, 0);
    if i >= class.len() {
        class
    } else {
        class.subrange(i + 1, first_nul(class, i + 1))
    }
}

/// `s`, or `default` where `s` is empty.
pub open spec fn or_default(s: Seq<char>, default: Seq<char>) -> Seq<char> {
    if s.len() == 0 {
        default
    } else {
        s
    }
}

fn find_nul(s: &str, from: usize) -> (r: usize)
    requires
        from <= s@.len(),
    ensures
        r == first_nul(s@, from as int),
        from <= r <= s@.len(),
{
    let n = s.unicode_len();
    let mut i = from;
    while i < n
        invariant
            n == s@.len(),
            from <= i <= n,
            first_nul(s@, from as int) == first_nul(s@, i as int),
        decreases n - i,
    {
        if s.get_char(i) == '\0' {
            return i;
        }
        i = i + 1;
    }
    i
}

impl ActiveApp {
    /// The application of a window from its title and class property; an
    /// empty title reads "Unknown" and an empty class name "unknown".
    pub fn from_window(title: &str, class: &str) -> (r: ActiveApp)
        ensures
            r.name@ == or_default(title@, "Unknown"@),
            r.bundle_id@ == or_default(class_name(class@), "unknown"@),
    {
        let name = if title.unicode_len() == 0 {
            String::from_str("Unknown")
        } else {
            String::from_str(title)
        };
        let n = class.unicode_len();
        let i = find_nul(class, 0);
        let field = if i >= n {
            class
        } else {
            let j = find_nul(class, i + 1);
            class.substring_char(i + 1, j)
        };
        let bundle_id = if field.unicode_len() == 0 {
            String::from_str("unknown")
        } else {
            String::from_str(field)
        };
        ActiveApp { name, bundle_id }
    }
}

/// What a browser last reported of its active tab.
pub struct BrowserContext {
    pub domain: String,
    pub url: String,
    pub title: String,
}

/// A classified key press with the context it happened in.
pub struct KeyEvent {
    /// Milliseconds since the Unix epoch.
    pub timestamp: i64,
    pub event_type: KeyEventType,
    /// The foreground application, when it could be resolved.
    pub app: Option<ActiveApp>,
    /// The browser's active tab, when the application is a browser that reported one.
    pub browser: Option<BrowserContext>,
}

/// The identifiers of the browsers whose active tab is tracked.
pub open spec fn browser_id(id: Seq<char>) -> bool {
    id == "com.JadeApps.Helium"@ || id == "com.google.Chrome"@ || id == "org.mozilla.firefox"@
        || id == "com.apple.Safari"@
}

/// Whether `bundle_id` names one of the tracked browsers.
pub fn is_browser(bundle_id: &String) -> (r: bool)
    ensures
        r == browser_id(bundle_id@),
{
    let helium = String::from_str("com.JadeApps.Helium");
    let chrome = String::from_str("com.google.Chrome");
    let firefox = String::from_str("org.mozilla.firefox");
    let safari = String::from_str("com.apple.Safari");
    *bundle_id == helium || *bundle_id == chrome || *bundle_id == firefox || *bundle_id == safari
}

/// The name under which a tracked browser reports its active tab.
pub open spec fn browser_name_of(id: Seq<char>) -> Option<Seq<char>> {
    if id == "com.JadeApps.Helium"@ {
        Some("Helium"@)
    } else if id == "com.google.Chrome"@ {
        Some("Chrome"@)
    } else if id == "org.mozilla.firefox"@ {
        Some("Firefox"@)
    } else if id == "com.apple.Safari"@ {
        Some("Safari"@)
    } else {
        None
    }
}

/// The name under which the browser `bundle_id` reports its active tab;
/// `None` for an application that is not a tracked browser.
pub fn browser_name(bundle_id: &String) -> (r: Option<&'static str>)
    ensures
        r is Some <==> browser_id(bundle_id@),
        r is Some ==> browser_name_of(bundle_id@) == Some(r->0@),
        r is None ==> browser_name_of(bundle_id@) is None,
{
    if *bundle_id == String::from_str("com.JadeApps.Helium") {
        Some("Helium")
    } else if *bundle_id == String::from_str("com.google.Chrome") {
        Some("Chrome")
    } else if *bundle_id == String::from_str("org.mozilla.firefox") {
        Some("Firefox")
    } else if *bundle_id == String::from_str("com.apple.Safari") {
        Some("Safari")
    } else {
        None
    }
}

} // verus!
