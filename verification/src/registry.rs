//! The code registry: a static, immutable table mapping symbolic input
//! names to platform key codes and to the derived press and release action
//! codes, with first-match lookup by name and by each code.

use vstd::prelude::*;

verus! {

/// One registry entry, as the specifications see it.
pub struct KeyRec {
    pub name: Seq<char>,
    pub decimal: u8,
    pub hexadecimal: u16,
    pub press: u16,
    pub release: u16,
}

/// The entry for the key named `name` with platform key code `decimal`: the
/// hexadecimal field mirrors the code, the press code is 1000 + code, and the
/// release code is the press code + 1000.
pub open spec fn key_rec(name: Seq<char>, decimal: u8) -> KeyRec {
    KeyRec {
        name,
        decimal,
        hexadecimal: decimal as u16,
        press: (1000 + decimal as int) as u16,
        release: (2000 + decimal as int) as u16,
    }
}

/// The code invariant of one entry: the hexadecimal field equals the decimal
/// platform code, the press code is 1000 + the platform code, and the release
/// code is the press code + 1000.
pub open spec fn entry_codes_consistent(k: KeyRec) -> bool {
    &&& k.hexadecimal == k.decimal
    &&& k.press == 1000 + k.decimal
    &&& k.release == k.press + 1000
}

/// The code invariant of the whole registry: every entry satisfies
/// [`entry_codes_consistent`].
pub open spec fn registry_codes_consistent(s: Seq<KeyRec>) -> bool {
    forall|i: int| 0 <= i < s.len() ==> entry_codes_consistent(#[trigger] s[i])
}

/// One recognized input symbol. Names are case-sensitive and not required to
/// be unique: aliases map to the same underlying codes.
pub struct WowKeyInfo {
    /// Symbolic name of the key (case-sensitive).
    pub key_name: String,
    /// 8-bit platform key identifier (virtual-key code).
    pub window_decimal: u8,
    /// The same identifier, retained for hexadecimal lookup.
    pub window_hexadecimal: u16,
    /// The action code of the key-down transition.
    pub press_integer: u16,
    /// The action code of the key-up transition.
    pub release_integer: u16,
}

impl View for WowKeyInfo {
    type V = KeyRec;

    open spec fn view(&self) -> KeyRec {
        KeyRec {
            name: self.key_name@,
            decimal: self.window_decimal,
            hexadecimal: self.window_hexadecimal,
            press: self.press_integer,
            release: self.release_integer,
        }
    }
}

impl DeepView for WowKeyInfo {
    type V = KeyRec;

    open spec fn deep_view(&self) -> KeyRec {
        self@
    }
}

/// The first entry of `s` that satisfies `p`, in definition order.
pub open spec fn first_match(s: Seq<KeyRec>, p: spec_fn(KeyRec) -> bool) -> Option<KeyRec>
    decreases s.len(),
{
    if s.len() == 0 {
        None
    } else if p(s[0]) {
        Some(s[0])
    } else {
        first_match(s.drop_first(), p)
    }
}

/// If `s[i]` satisfies `p` and no earlier entry does, the first match is `s[i]`.
proof fn lemma_first_match_found(s: Seq<KeyRec>, p: spec_fn(KeyRec) -> bool, i: int)
    requires
        0 <= i < s.len(),
        p(s[i]),
        forall|j: int| 0 <= j < i ==> !p(#[trigger] s[j]),
    ensures
        first_match(s, p) == Some(s[i]),
    decreases i,
{
    if i > 0 {
        assert(!p(s[0]));
        assert forall|j: int| 0 <= j < i - 1 implies !p(#[trigger] s.drop_first()[j]) by {
            assert(s.drop_first()[j] == s[j + 1]);
        }
        lemma_first_match_found(s.drop_first(), p, i - 1);
        assert(s.drop_first()[i - 1] == s[i]);
    }
}

/// If no entry of `s` satisfies `p`, there is no first match.
proof fn lemma_first_match_none(s: Seq<KeyRec>, p: spec_fn(KeyRec) -> bool)
    requires
        forall|j: int| 0 <= j < s.len() ==> !p(#[trigger] s[j]),
    ensures
        first_match(s, p) is None,
    decreases s.len(),
{
    if s.len() > 0 {
        assert forall|j: int| 0 <= j < s.len() - 1 implies !p(#[trigger] s.drop_first()[j]) by {
            assert(s.drop_first()[j] == s[j + 1]);
        }
        lemma_first_match_none(s.drop_first(), p);
    }
}

/// The registry: an ordered, immutable sequence of entries. Lookups scan in
/// definition order, so with aliases the earlier entry wins.
pub struct EnumWowKey {
    list: Vec<WowKeyInfo>,
}

impl View for EnumWowKey {
    type V = Seq<KeyRec>;

    closed spec fn view(&self) -> Seq<KeyRec> {
        self.list.deep_view()
    }
}

/// Appends the entry for `name` with platform code `decimal`, deriving the
/// hexadecimal, press and release codes from `decimal`.
fn push_key(list: &mut Vec<WowKeyInfo>, name: &str, decimal: u8)
    ensures
        final(list).deep_view() == old(list).deep_view().push(key_rec(name@, decimal)),
        registry_codes_consistent(old(list).deep_view()) ==> registry_codes_consistent(
            final(list).deep_view(),
        ),
{
    let press: u16 = 1000 + (decimal as u16);
    let release: u16 = 2000 + (decimal as u16);
    let info = WowKeyInfo {
        key_name: name.to_owned(),
        window_decimal: decimal,
        window_hexadecimal: decimal as u16,
        press_integer: press,
        release_integer: release,
    };
    list.push(info);
    proof {
        let ghost old_dv = old(list).deep_view();
        let ghost new_dv = list.deep_view();
        assert(info@ == key_rec(name@, decimal));
        assert(new_dv =~= old_dv.push(key_rec(name@, decimal)));
        if registry_codes_consistent(old_dv) {
            assert forall|i: int| 0 <= i < new_dv.len() implies entry_codes_consistent(
                #[trigger] new_dv[i],
            ) by {
                if i < old_dv.len() {
                    assert(new_dv[i] == old_dv[i]);
                } else {
                    assert(new_dv[i] == key_rec(name@, decimal));
                }
            }
        }
    }
}

impl EnumWowKey {
    /// Looks up the first entry whose name equals `key` exactly
    /// (case-sensitive); `None` when no entry matches.
    pub fn get_key_info(&self, key: &str) -> (r: Option<&WowKeyInfo>)
        ensures
            ({
                let m = first_match(self@, (|k: KeyRec| k.name == key@));
                match r {
                    Some(info) => m == Some(info@),
                    None => m is None,
                }
            }),
    {
        let ghost p = (|k: KeyRec| k.name == key@);
        let needle: String = key.to_owned();
        let n = self.list.len();
        let mut idx: usize = 0;
        while idx < n
            invariant
                n == self.list.len(),
                idx <= n,
                needle@ == key@,
                p == (|k: KeyRec| k.name == key@),
                forall|j: int| 0 <= j < idx ==> !p(#[trigger] self@[j]),
            decreases n - idx,
        {
            let info = &self.list[idx];
            proof {
                assert(self@[idx as int] == info@);
            }
            if info.key_name == needle {
                proof {
                    assert(p(self@[idx as int]));
                    lemma_first_match_found(self@, p, idx as int);
                }
                return Some(info);
            }
            idx += 1;
        }
        proof {
            lemma_first_match_none(self@, p);
        }
        None
    }

    /// Looks up the first entry whose decimal platform key code equals `decimal`;
    /// `None` when no entry matches.
    pub fn get_key_info_by_decimal(&self, decimal: u8) -> (r: Option<&WowKeyInfo>)
        ensures
            ({
                let m = first_match(self@, (|k: KeyRec| k.decimal == decimal));
                match r {
                    Some(info) => m == Some(info@),
                    None => m is None,
                }
            }),
    {
        let ghost p = (|k: KeyRec| k.decimal == decimal);
        let n = self.list.len();
        let mut idx: usize = 0;
        while idx < n
            invariant
                n == self.list.len(),
                idx <= n,
                p == (|k: KeyRec| k.decimal == decimal),
                forall|j: int| 0 <= j < idx ==> !p(#[trigger] self@[j]),
            decreases n - idx,
        {
            let info = &self.list[idx];
            proof {
                assert(self@[idx as int] == info@);
            }
            if info.window_decimal == decimal {
                proof {
                    assert(p(self@[idx as int]));
                    lemma_first_match_found(self@, p, idx as int);
                }
                return Some(info);
            }
            idx += 1;
        }
        proof {
            lemma_first_match_none(self@, p);
        }
        None
    }

    /// Looks up the first entry whose hexadecimal platform key code equals `hexadecimal`;
    /// `None` when no entry matches.
    pub fn get_key_info_by_hexadecimal(&self, hexadecimal: u16) -> (r: Option<&WowKeyInfo>)
        ensures
            ({
                let m = first_match(self@, (|k: KeyRec| k.hexadecimal == hexadecimal));
                match r {
                    Some(info) => m == Some(info@),
                    None => m is None,
                }
            }),
    {
        let ghost p = (|k: KeyRec| k.hexadecimal == hexadecimal);
        let n = self.list.len();
        let mut idx: usize = 0;
        while idx < n
            invariant
                n == self.list.len(),
                idx <= n,
                p == (|k: KeyRec| k.hexadecimal == hexadecimal),
                forall|j: int| 0 <= j < idx ==> !p(#[trigger] self@[j]),
            decreases n - idx,
        {
            let info = &self.list[idx];
            proof {
                assert(self@[idx as int] == info@);
            }
            if info.window_hexadecimal == hexadecimal {
                proof {
                    assert(p(self@[idx as int]));
                    lemma_first_match_found(self@, p, idx as int);
                }
                return Some(info);
            }
            idx += 1;
        }
        proof {
            lemma_first_match_none(self@, p);
        }
        None
    }

    /// Looks up the first entry whose press action code equals `press`;
    /// `None` when no entry matches.
    pub fn get_key_info_by_press(&self, press: u16) -> (r: Option<&WowKeyInfo>)
        ensures
            ({
                let m = first_match(self@, (|k: KeyRec| k.press == press));
                match r {
                    Some(info) => m == Some(info@),
                    None => m is None,
                }
            }),
    {
        let ghost p = (|k: KeyRec| k.press == press);
        let n = self.list.len();
        let mut idx: usize = 0;
        while idx < n
            invariant
                n == self.list.len(),
                idx <= n,
                p == (|k: KeyRec| k.press == press),
                forall|j: int| 0 <= j < idx ==> !p(#[trigger] self@[j]),
            decreases n - idx,
        {
            let info = &self.list[idx];
            proof {
                assert(self@[idx as int] == info@);
            }
            if info.press_integer == press {
                proof {
                    assert(p(self@[idx as int]));
                    lemma_first_match_found(self@, p, idx as int);
                }
                return Some(info);
            }
            idx += 1;
        }
        proof {
            lemma_first_match_none(self@, p);
        }
        None
    }

    /// Looks up the first entry whose release action code equals `release`;
    /// `None` when no entry matches.
    pub fn get_key_info_by_release(&self, release: u16) -> (r: Option<&WowKeyInfo>)
        ensures
            ({
                let m = first_match(self@, (|k: KeyRec| k.release == release));
                match r {
                    Some(info) => m == Some(info@),
                    None => m is None,
                }
            }),
    {
        let ghost p = (|k: KeyRec| k.release == release);
        let n = self.list.len();
        let mut idx: usize = 0;
        while idx < n
            invariant
                n == self.list.len(),
                idx <= n,
                p == (|k: KeyRec| k.release == release),
                forall|j: int| 0 <= j < idx ==> !p(#[trigger] self@[j]),
            decreases n - idx,
        {
            let info = &self.list[idx];
            proof {
                assert(self@[idx as int] == info@);
            }
            if info.release_integer == release {
                proof {
                    assert(p(self@[idx as int]));
                    lemma_first_match_found(self@, p, idx as int);
                }
                return Some(info);
            }
            idx += 1;
        }
        proof {
            lemma_first_match_none(self@, p);
        }
        None
    }

    /// The number of entries in the registry.
    pub fn len(&self) -> (r: usize)
        ensures
            r == self@.len(),
    {
        self.list.len()
    }

    /// The entry at position `i`, in definition order.
    pub fn entry_at(&self, i: usize) -> (r: &WowKeyInfo)
        requires
            i < self@.len(),
        ensures
            r@ == self@[i as int],
    {
        &self.list[i]
    }

    /// Builds the registry table. Every entry's codes are derived from its
    /// platform key code, and the whole table is pinned down entry by entry.
    #[verifier::rlimit(100)]
    pub fn new() -> (r: EnumWowKey)
        ensures
            r@ == registry_table(),
            registry_codes_consistent(r@),
            r@.len() == 162,
    {
        let mut list: Vec<WowKeyInfo> = Vec::new();
        proof {
            assert(list.deep_view() =~= Seq::<KeyRec>::empty());
        }
        push_key(&mut list, "Backspace", 8);
        push_key(&mut list, "Tab", 9);
        push_key(&mut list, "Clear", 12);
        push_key(&mut list, "Enter", 13);
        push_key(&mut list, "Shift", 16);
        push_key(&mut list, "Ctrl", 17);
        push_key(&mut list, "Alt", 18);
        push_key(&mut list, "Pause", 19);
        push_key(&mut list, "CapsLock", 20);
        push_key(&mut list, "Esc", 27);
        push_key(&mut list, "Escape", 27);
        push_key(&mut list, "Space", 32);
        push_key(&mut list, "PageUp", 33);
        push_key(&mut list, "PageDown", 34);
        push_key(&mut list, "End", 35);
        push_key(&mut list, "Home", 36);
        push_key(&mut list, "LeftArrow", 37);
        push_key(&mut list, "Left", 37);
        push_key(&mut list, "UpArrow", 38);
        push_key(&mut list, "Up", 38);
        push_key(&mut list, "RightArrow", 39);
        push_key(&mut list, "Right", 39);
        push_key(&mut list, "DownArrow", 40);
        push_key(&mut list, "Down", 40);
        push_key(&mut list, "Select", 41);
        push_key(&mut list, "Print", 42);
        push_key(&mut list, "Execute", 43);
        push_key(&mut list, "PrintScreen", 44);
        push_key(&mut list, "Insert", 45);
        push_key(&mut list, "Delete", 46);
        push_key(&mut list, "0", 48);
        push_key(&mut list, "1", 49);
        push_key(&mut list, "2", 50);
        push_key(&mut list, "3", 51);
        push_key(&mut list, "4", 52);
        push_key(&mut list, "5", 53);
        push_key(&mut list, "6", 54);
        push_key(&mut list, "7", 55);
        push_key(&mut list, "8", 56);
        push_key(&mut list, "9", 57);
        push_key(&mut list, "A", 65);
        push_key(&mut list, "B", 66);
        push_key(&mut list, "C", 67);
        push_key(&mut list, "D", 68);
        push_key(&mut list, "E", 69);
        push_key(&mut list, "F", 70);
        push_key(&mut list, "G", 71);
        push_key(&mut list, "H", 72);
        push_key(&mut list, "I", 73);
        push_key(&mut list, "J", 74);
        push_key(&mut list, "K", 75);
        push_key(&mut list, "L", 76);
        push_key(&mut list, "M", 77);
        push_key(&mut list, "N", 78);
        push_key(&mut list, "O", 79);
        push_key(&mut list, "P", 80);
        push_key(&mut list, "Q", 81);
        push_key(&mut list, "R", 82);
        push_key(&mut list, "S", 83);
        push_key(&mut list, "T", 84);
        push_key(&mut list, "U", 85);
        push_key(&mut list, "V", 86);
        push_key(&mut list, "W", 87);
        push_key(&mut list, "X", 88);
        push_key(&mut list, "Y", 89);
        push_key(&mut list, "Z", 90);
        push_key(&mut list, "LeftWindow", 91);
        push_key(&mut list, "RightWindow", 92);
        push_key(&mut list, "Applications", 93);
        push_key(&mut list, "Sleep", 95);
        push_key(&mut list, "NumLock", 144);
        push_key(&mut list, "ScrollLock", 145);
        push_key(&mut list, "Numpad0", 96);
        push_key(&mut list, "Numpad1", 97);
        push_key(&mut list, "Numpad2", 98);
        push_key(&mut list, "Numpad3", 99);
        push_key(&mut list, "Numpad4", 100);
        push_key(&mut list, "Numpad5", 101);
        push_key(&mut list, "Numpad6", 102);
        push_key(&mut list, "Numpad7", 103);
        push_key(&mut list, "Numpad8", 104);
        push_key(&mut list, "Numpad9", 105);
        push_key(&mut list, "Multiply", 106);
        push_key(&mut list, "Add", 107);
        push_key(&mut list, "Separator", 108);
        push_key(&mut list, "Subtract", 109);
        push_key(&mut list, "Decimal", 110);
        push_key(&mut list, "Divide", 111);
        push_key(&mut list, "F1", 112);
        push_key(&mut list, "F2", 113);
        push_key(&mut list, "F3", 114);
        push_key(&mut list, "F4", 115);
        push_key(&mut list, "F5", 116);
        push_key(&mut list, "F6", 117);
        push_key(&mut list, "F7", 118);
        push_key(&mut list, "F8", 119);
        push_key(&mut list, "F9", 120);
        push_key(&mut list, "F10", 121);
        push_key(&mut list, "F11", 122);
        push_key(&mut list, "F12", 123);
        push_key(&mut list, "F13", 124);
        push_key(&mut list, "F14", 125);
        push_key(&mut list, "F15", 126);
        push_key(&mut list, "F16", 127);
        push_key(&mut list, "F17", 128);
        push_key(&mut list, "F18", 129);
        push_key(&mut list, "F19", 130);
        push_key(&mut list, "F20", 131);
        push_key(&mut list, "F21", 132);
        push_key(&mut list, "F22", 133);
        push_key(&mut list, "F23", 134);
        push_key(&mut list, "F24", 135);
        push_key(&mut list, "NumLock", 144);
        push_key(&mut list, "ScrollLock", 145);
        push_key(&mut list, "LeftShift", 160);
        push_key(&mut list, "RightShift", 161);
        push_key(&mut list, "LeftControl", 162);
        push_key(&mut list, "RightControl", 163);
        push_key(&mut list, "LeftAlt", 164);
        push_key(&mut list, "RightAlt", 165);
        push_key(&mut list, "LeftMenu", 164);
        push_key(&mut list, "RightMenu", 165);
        push_key(&mut list, "BrowserBack", 166);
        push_key(&mut list, "BrowserForward", 167);
        push_key(&mut list, "BrowserRefresh", 168);
        push_key(&mut list, "BrowserStop", 169);
        push_key(&mut list, "BrowserSearch", 170);
        push_key(&mut list, "BrowserFavorites", 171);
        push_key(&mut list, "BrowserHome", 172);
        push_key(&mut list, "VolumeMute", 173);
        push_key(&mut list, "VolumeDown", 174);
        push_key(&mut list, "VolumeUp", 175);
        push_key(&mut list, "MediaNextTrack", 176);
        push_key(&mut list, "MediaPreviousTrack", 177);
        push_key(&mut list, "MediaStop", 178);
        push_key(&mut list, "MediaPlay", 179);
        push_key(&mut list, "LaunchMail", 180);
        push_key(&mut list, "LaunchMediaSelect", 181);
        push_key(&mut list, "LaunchApp1", 182);
        push_key(&mut list, "LaunchApp2", 183);
        push_key(&mut list, "OEM1", 186);
        push_key(&mut list, "OEMPlus", 187);
        push_key(&mut list, "OEMComma", 188);
        push_key(&mut list, "OEMMinus", 189);
        push_key(&mut list, "OEMPeriod", 190);
        push_key(&mut list, "OEM2", 191);
        push_key(&mut list, "OEM3", 192);
        push_key(&mut list, "OEM4", 219);
        push_key(&mut list, "OEM5", 220);
        push_key(&mut list, "OEM6", 221);
        push_key(&mut list, "OEM7", 222);
        push_key(&mut list, "OEM8", 223);
        push_key(&mut list, "OEM102", 226);
        push_key(&mut list, "ProcessKey", 229);
        push_key(&mut list, "Packet", 231);
        push_key(&mut list, "Attn", 246);
        push_key(&mut list, "CrSel", 247);
        push_key(&mut list, "ExSel", 248);
        push_key(&mut list, "EraseEOF", 249);
        push_key(&mut list, "Play", 250);
        push_key(&mut list, "Zoom", 251);
        push_key(&mut list, "PA1", 253);
        let r = EnumWowKey { list };
        proof {
            assert(r@ == registry_table());
        }
        r
    }
}

/// The full registry table, in definition order. Aliases (several names for
/// one code) and the few doubled entries of the source data are kept, since
/// lookups return the first match.
pub open spec fn registry_table() -> Seq<KeyRec> {
    Seq::empty()
        .push(key_rec("Backspace"@, 8))
        .push(key_rec("Tab"@, 9))
        .push(key_rec("Clear"@, 12))
        .push(key_rec("Enter"@, 13))
        .push(key_rec("Shift"@, 16))
        .push(key_rec("Ctrl"@, 17))
        .push(key_rec("Alt"@, 18))
        .push(key_rec("Pause"@, 19))
        .push(key_rec("CapsLock"@, 20))
        .push(key_rec("Esc"@, 27))
        .push(key_rec("Escape"@, 27))
        .push(key_rec("Space"@, 32))
        .push(key_rec("PageUp"@, 33))
        .push(key_rec("PageDown"@, 34))
        .push(key_rec("End"@, 35))
        .push(key_rec("Home"@, 36))
        .push(key_rec("LeftArrow"@, 37))
        .push(key_rec("Left"@, 37))
        .push(key_rec("UpArrow"@, 38))
        .push(key_rec("Up"@, 38))
        .push(key_rec("RightArrow"@, 39))
        .push(key_rec("Right"@, 39))
        .push(key_rec("DownArrow"@, 40))
        .push(key_rec("Down"@, 40))
        .push(key_rec("Select"@, 41))
        .push(key_rec("Print"@, 42))
        .push(key_rec("Execute"@, 43))
        .push(key_rec("PrintScreen"@, 44))
        .push(key_rec("Insert"@, 45))
        .push(key_rec("Delete"@, 46))
        .push(key_rec("0"@, 48))
        .push(key_rec("1"@, 49))
        .push(key_rec("2"@, 50))
        .push(key_rec("3"@, 51))
        .push(key_rec("4"@, 52))
        .push(key_rec("5"@, 53))
        .push(key_rec("6"@, 54))
        .push(key_rec("7"@, 55))
        .push(key_rec("8"@, 56))
        .push(key_rec("9"@, 57))
        .push(key_rec("A"@, 65))
        .push(key_rec("B"@, 66))
        .push(key_rec("C"@, 67))
        .push(key_rec("D"@, 68))
        .push(key_rec("E"@, 69))
        .push(key_rec("F"@, 70))
        .push(key_rec("G"@, 71))
        .push(key_rec("H"@, 72))
        .push(key_rec("I"@, 73))
        .push(key_rec("J"@, 74))
        .push(key_rec("K"@, 75))
        .push(key_rec("L"@, 76))
        .push(key_rec("M"@, 77))
        .push(key_rec("N"@, 78))
        .push(key_rec("O"@, 79))
        .push(key_rec("P"@, 80))
        .push(key_rec("Q"@, 81))
        .push(key_rec("R"@, 82))
        .push(key_rec("S"@, 83))
        .push(key_rec("T"@, 84))
        .push(key_rec("U"@, 85))
        .push(key_rec("V"@, 86))
        .push(key_rec("W"@, 87))
        .push(key_rec("X"@, 88))
        .push(key_rec("Y"@, 89))
        .push(key_rec("Z"@, 90))
        .push(key_rec("LeftWindow"@, 91))
        .push(key_rec("RightWindow"@, 92))
        .push(key_rec("Applications"@, 93))
        .push(key_rec("Sleep"@, 95))
        .push(key_rec("NumLock"@, 144))
        .push(key_rec("ScrollLock"@, 145))
        .push(key_rec("Numpad0"@, 96))
        .push(key_rec("Numpad1"@, 97))
        .push(key_rec("Numpad2"@, 98))
        .push(key_rec("Numpad3"@, 99))
        .push(key_rec("Numpad4"@, 100))
        .push(key_rec("Numpad5"@, 101))
        .push(key_rec("Numpad6"@, 102))
        .push(key_rec("Numpad7"@, 103))
        .push(key_rec("Numpad8"@, 104))
        .push(key_rec("Numpad9"@, 105))
        .push(key_rec("Multiply"@, 106))
        .push(key_rec("Add"@, 107))
        .push(key_rec("Separator"@, 108))
        .push(key_rec("Subtract"@, 109))
        .push(key_rec("Decimal"@, 110))
        .push(key_rec("Divide"@, 111))
        .push(key_rec("F1"@, 112))
        .push(key_rec("F2"@, 113))
        .push(key_rec("F3"@, 114))
        .push(key_rec("F4"@, 115))
        .push(key_rec("F5"@, 116))
        .push(key_rec("F6"@, 117))
        .push(key_rec("F7"@, 118))
        .push(key_rec("F8"@, 119))
        .push(key_rec("F9"@, 120))
        .push(key_rec("F10"@, 121))
        .push(key_rec("F11"@, 122))
        .push(key_rec("F12"@, 123))
        .push(key_rec("F13"@, 124))
        .push(key_rec("F14"@, 125))
        .push(key_rec("F15"@, 126))
        .push(key_rec("F16"@, 127))
        .push(key_rec("F17"@, 128))
        .push(key_rec("F18"@, 129))
        .push(key_rec("F19"@, 130))
        .push(key_rec("F20"@, 131))
        .push(key_rec("F21"@, 132))
        .push(key_rec("F22"@, 133))
        .push(key_rec("F23"@, 134))
        .push(key_rec("F24"@, 135))
        .push(key_rec("NumLock"@, 144))
        .push(key_rec("ScrollLock"@, 145))
        .push(key_rec("LeftShift"@, 160))
        .push(key_rec("RightShift"@, 161))
        .push(key_rec("LeftControl"@, 162))
        .push(key_rec("RightControl"@, 163))
        .push(key_rec("LeftAlt"@, 164))
        .push(key_rec("RightAlt"@, 165))
        .push(key_rec("LeftMenu"@, 164))
        .push(key_rec("RightMenu"@, 165))
        .push(key_rec("BrowserBack"@, 166))
        .push(key_rec("BrowserForward"@, 167))
        .push(key_rec("BrowserRefresh"@, 168))
        .push(key_rec("BrowserStop"@, 169))
        .push(key_rec("BrowserSearch"@, 170))
        .push(key_rec("BrowserFavorites"@, 171))
        .push(key_rec("BrowserHome"@, 172))
        .push(key_rec("VolumeMute"@, 173))
        .push(key_rec("VolumeDown"@, 174))
        .push(key_rec("VolumeUp"@, 175))
        .push(key_rec("MediaNextTrack"@, 176))
        .push(key_rec("MediaPreviousTrack"@, 177))
        .push(key_rec("MediaStop"@, 178))
        .push(key_rec("MediaPlay"@, 179))
        .push(key_rec("LaunchMail"@, 180))
        .push(key_rec("LaunchMediaSelect"@, 181))
        .push(key_rec("LaunchApp1"@, 182))
        .push(key_rec("LaunchApp2"@, 183))
        .push(key_rec("OEM1"@, 186))
        .push(key_rec("OEMPlus"@, 187))
        .push(key_rec("OEMComma"@, 188))
        .push(key_rec("OEMMinus"@, 189))
        .push(key_rec("OEMPeriod"@, 190))
        .push(key_rec("OEM2"@, 191))
        .push(key_rec("OEM3"@, 192))
        .push(key_rec("OEM4"@, 219))
        .push(key_rec("OEM5"@, 220))
        .push(key_rec("OEM6"@, 221))
        .push(key_rec("OEM7"@, 222))
        .push(key_rec("OEM8"@, 223))
        .push(key_rec("OEM102"@, 226))
        .push(key_rec("ProcessKey"@, 229))
        .push(key_rec("Packet"@, 231))
        .push(key_rec("Attn"@, 246))
        .push(key_rec("CrSel"@, 247))
        .push(key_rec("ExSel"@, 248))
        .push(key_rec("EraseEOF"@, 249))
        .push(key_rec("Play"@, 250))
        .push(key_rec("Zoom"@, 251))
        .push(key_rec("PA1"@, 253))

}

} // verus!
