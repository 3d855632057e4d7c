use vstd::prelude::*;
use crate::config::ConfigError;
use vstd::string::StringSliceAdditionalSpecFns;

verus! {

/// One palette entry: red, green and blue as 8-bit sRGB levels.
#[derive(Clone, Copy, Debug, PartialEq, Eq, Structural)]
pub struct Rgb8 {
    pub r: u8,
    pub g: u8,
    pub b: u8,
}

pub open spec fn rgb(r: u8, g: u8, b: u8) -> Rgb8 {
    Rgb8 { r, g, b }
}

/// The named gradients of the registry.
#[derive(Clone, Copy, Debug, PartialEq, Eq, Structural)]
pub enum PaletteName {
    Classic,
    Lava,
    Ocean,
    Magma,
    Viridis,
    Inferno,
    Turbo,
}

/// The classic gradient: brown through deep blue to white and gold.
pub open spec fn classic_spec() -> Seq<Rgb8> {
    seq![
        rgb(139, 96, 69),
        rgb(88, 46, 90),
        rgb(53, 13, 119),
        rgb(34, 34, 146),
        rgb(0, 46, 168),
        rgb(61, 115, 194),
        rgb(86, 154, 217),
        rgb(130, 186, 234),
        rgb(192, 219, 243),
        rgb(235, 246, 252),
        rgb(249, 245, 224),
        rgb(252, 230, 164),
        rgb(255, 213, 0),
        rgb(231, 188, 0),
        rgb(203, 158, 0),
        rgb(173, 125, 28),
    ]
}

/// The classic gradient: brown through deep blue to white and gold.
pub fn classic() -> (r: Vec<Rgb8>)
    ensures
        r@ == classic_spec(),
{
    let r = vec![
        Rgb8 { r: 139, g: 96, b: 69 },
        Rgb8 { r: 88, g: 46, b: 90 },
        Rgb8 { r: 53, g: 13, b: 119 },
        Rgb8 { r: 34, g: 34, b: 146 },
        Rgb8 { r: 0, g: 46, b: 168 },
        Rgb8 { r: 61, g: 115, b: 194 },
        Rgb8 { r: 86, g: 154, b: 217 },
        Rgb8 { r: 130, g: 186, b: 234 },
        Rgb8 { r: 192, g: 219, b: 243 },
        Rgb8 { r: 235, g: 246, b: 252 },
        Rgb8 { r: 249, g: 245, b: 224 },
        Rgb8 { r: 252, g: 230, b: 164 },
        Rgb8 { r: 255, g: 213, b: 0 },
        Rgb8 { r: 231, g: 188, b: 0 },
        Rgb8 { r: 203, g: 158, b: 0 },
        Rgb8 { r: 173, g: 125, b: 28 },
    ];
    assert(r@ =~= classic_spec());
    r
}

/// The lava gradient: black through red and yellow to white and back.
pub open spec fn lava_spec() -> Seq<Rgb8> {
    seq![
        rgb(0, 0, 0),
        rgb(56, 0, 0),
        rgb(79, 0, 0),
        rgb(110, 0, 0),
        rgb(152, 0, 0),
        rgb(208, 56, 0),
        rgb(229, 110, 0),
        rgb(248, 160, 0),
        rgb(255, 208, 0),
        rgb(255, 239, 56),
        rgb(255, 255, 152),
        rgb(255, 255, 208),
        rgb(255, 255, 255),
        rgb(255, 255, 208),
        rgb(255, 255, 152),
        rgb(255, 239, 56),
        rgb(255, 208, 0),
        rgb(248, 160, 0),
        rgb(229, 110, 0),
        rgb(208, 56, 0),
        rgb(152, 0, 0),
        rgb(110, 0, 0),
        rgb(79, 0, 0),
        rgb(56, 0, 0),
    ]
}

/// The lava gradient: black through red and yellow to white and back.
pub fn lava() -> (r: Vec<Rgb8>)
    ensures
        r@ == lava_spec(),
{
    let r = vec![
        Rgb8 { r: 0, g: 0, b: 0 },
        Rgb8 { r: 56, g: 0, b: 0 },
        Rgb8 { r: 79, g: 0, b: 0 },
        Rgb8 { r: 110, g: 0, b: 0 },
        Rgb8 { r: 152, g: 0, b: 0 },
        Rgb8 { r: 208, g: 56, b: 0 },
        Rgb8 { r: 229, g: 110, b: 0 },
        Rgb8 { r: 248, g: 160, b: 0 },
        Rgb8 { r: 255, g: 208, b: 0 },
        Rgb8 { r: 255, g: 239, b: 56 },
        Rgb8 { r: 255, g: 255, b: 152 },
        Rgb8 { r: 255, g: 255, b: 208 },
        Rgb8 { r: 255, g: 255, b: 255 },
        Rgb8 { r: 255, g: 255, b: 208 },
        Rgb8 { r: 255, g: 255, b: 152 },
        Rgb8 { r: 255, g: 239, b: 56 },
        Rgb8 { r: 255, g: 208, b: 0 },
        Rgb8 { r: 248, g: 160, b: 0 },
        Rgb8 { r: 229, g: 110, b: 0 },
        Rgb8 { r: 208, g: 56, b: 0 },
        Rgb8 { r: 152, g: 0, b: 0 },
        Rgb8 { r: 110, g: 0, b: 0 },
        Rgb8 { r: 79, g: 0, b: 0 },
        Rgb8 { r: 56, g: 0, b: 0 },
    ];
    assert(r@ =~= lava_spec());
    r
}

/// The ocean gradient: deep blue through sky blue to white and back.
pub open spec fn ocean_spec() -> Seq<Rgb8> {
    seq![
        rgb(0, 0, 124),
        rgb(0, 0, 170),
        rgb(0, 0, 203),
        rgb(0, 124, 170),
        rgb(0, 170, 231),
        rgb(124, 203, 255),
        rgb(170, 218, 255),
        rgb(203, 231, 255),
        rgb(231, 243, 255),
        rgb(255, 255, 255),
        rgb(231, 243, 255),
        rgb(203, 231, 255),
        rgb(170, 218, 255),
        rgb(124, 203, 255),
        rgb(0, 170, 231),
        rgb(0, 124, 170),
        rgb(0, 0, 203),
        rgb(0, 0, 170),
    ]
}

/// The ocean gradient: deep blue through sky blue to white and back.
pub fn ocean() -> (r: Vec<Rgb8>)
    ensures
        r@ == ocean_spec(),
{
    let r = vec![
        Rgb8 { r: 0, g: 0, b: 124 },
        Rgb8 { r: 0, g: 0, b: 170 },
        Rgb8 { r: 0, g: 0, b: 203 },
        Rgb8 { r: 0, g: 124, b: 170 },
        Rgb8 { r: 0, g: 170, b: 231 },
        Rgb8 { r: 124, g: 203, b: 255 },
        Rgb8 { r: 170, g: 218, b: 255 },
        Rgb8 { r: 203, g: 231, b: 255 },
        Rgb8 { r: 231, g: 243, b: 255 },
        Rgb8 { r: 255, g: 255, b: 255 },
        Rgb8 { r: 231, g: 243, b: 255 },
        Rgb8 { r: 203, g: 231, b: 255 },
        Rgb8 { r: 170, g: 218, b: 255 },
        Rgb8 { r: 124, g: 203, b: 255 },
        Rgb8 { r: 0, g: 170, b: 231 },
        Rgb8 { r: 0, g: 124, b: 170 },
        Rgb8 { r: 0, g: 0, b: 203 },
        Rgb8 { r: 0, g: 0, b: 170 },
    ];
    assert(r@ =~= ocean_spec());
    r
}

/// Magma: black through purple and orange to pale yellow, at 16 even steps.
pub open spec fn magma_spec() -> Seq<Rgb8> {
    seq![
        rgb(0, 0, 0),
        rgb(11, 8, 40),
        rgb(33, 13, 78),
        rgb(59, 18, 107),
        rgb(86, 23, 126),
        rgb(114, 29, 134),
        rgb(142, 37, 133),
        rgb(170, 47, 125),
        rgb(197, 60, 113),
        rgb(220, 77, 102),
        rgb(239, 98, 96),
        rgb(252, 125, 97),
        rgb(255, 157, 108),
        rgb(254, 192, 129),
        rgb(251, 226, 157),
        rgb(254, 249, 186),
    ]
}

/// Magma: black through purple and orange to pale yellow, at 16 even steps.
pub fn magma() -> (r: Vec<Rgb8>)
    ensures
        r@ == magma_spec(),
{
    let r = vec![
        Rgb8 { r: 0, g: 0, b: 0 },
        Rgb8 { r: 11, g: 8, b: 40 },
        Rgb8 { r: 33, g: 13, b: 78 },
        Rgb8 { r: 59, g: 18, b: 107 },
        Rgb8 { r: 86, g: 23, b: 126 },
        Rgb8 { r: 114, g: 29, b: 134 },
        Rgb8 { r: 142, g: 37, b: 133 },
        Rgb8 { r: 170, g: 47, b: 125 },
        Rgb8 { r: 197, g: 60, b: 113 },
        Rgb8 { r: 220, g: 77, b: 102 },
        Rgb8 { r: 239, g: 98, b: 96 },
        Rgb8 { r: 252, g: 125, b: 97 },
        Rgb8 { r: 255, g: 157, b: 108 },
        Rgb8 { r: 254, g: 192, b: 129 },
        Rgb8 { r: 251, g: 226, b: 157 },
        Rgb8 { r: 254, g: 249, b: 186 },
    ];
    assert(r@ =~= magma_spec());
    r
}

/// Viridis: deep purple through teal to yellow, at 16 even steps.
pub open spec fn viridis_spec() -> Seq<Rgb8> {
    seq![
        rgb(71, 1, 85),
        rgb(72, 25, 108),
        rgb(71, 48, 125),
        rgb(66, 68, 136),
        rgb(59, 87, 141),
        rgb(49, 104, 142),
        rgb(40, 120, 142),
        rgb(33, 136, 140),
        rgb(31, 152, 137),
        rgb(37, 168, 132),
        rgb(53, 183, 121),
        rgb(81, 197, 103),
        rgb(120, 209, 78),
        rgb(166, 219, 51),
        rgb(213, 226, 30),
        rgb(252, 231, 33),
    ]
}

/// Viridis: deep purple through teal to yellow, at 16 even steps.
pub fn viridis() -> (r: Vec<Rgb8>)
    ensures
        r@ == viridis_spec(),
{
    let r = vec![
        Rgb8 { r: 71, g: 1, b: 85 },
        Rgb8 { r: 72, g: 25, b: 108 },
        Rgb8 { r: 71, g: 48, b: 125 },
        Rgb8 { r: 66, g: 68, b: 136 },
        Rgb8 { r: 59, g: 87, b: 141 },
        Rgb8 { r: 49, g: 104, b: 142 },
        Rgb8 { r: 40, g: 120, b: 142 },
        Rgb8 { r: 33, g: 136, b: 140 },
        Rgb8 { r: 31, g: 152, b: 137 },
        Rgb8 { r: 37, g: 168, b: 132 },
        Rgb8 { r: 53, g: 183, b: 121 },
        Rgb8 { r: 81, g: 197, b: 103 },
        Rgb8 { r: 120, g: 209, b: 78 },
        Rgb8 { r: 166, g: 219, b: 51 },
        Rgb8 { r: 213, g: 226, b: 30 },
        Rgb8 { r: 252, g: 231, b: 33 },
    ];
    assert(r@ =~= viridis_spec());
    r
}

/// Inferno: black through purple and red to pale yellow, at 16 even steps.
pub open spec fn inferno_spec() -> Seq<Rgb8> {
    seq![
        rgb(0, 0, 0),
        rgb(12, 7, 47),
        rgb(37, 10, 77),
        rgb(65, 13, 96),
        rgb(93, 18, 105),
        rgb(121, 25, 108),
        rgb(147, 35, 103),
        rgb(173, 47, 90),
        rgb(198, 61, 72),
        rgb(219, 80, 50),
        rgb(237, 102, 29),
        rgb(247, 130, 16),
        rgb(251, 163, 17),
        rgb(247, 198, 39),
        rgb(243, 232, 88),
        rgb(250, 255, 168),
    ]
}

/// Inferno: black through purple and red to pale yellow, at 16 even steps.
pub fn inferno() -> (r: Vec<Rgb8>)
    ensures
        r@ == inferno_spec(),
{
    let r = vec![
        Rgb8 { r: 0, g: 0, b: 0 },
        Rgb8 { r: 12, g: 7, b: 47 },
        Rgb8 { r: 37, g: 10, b: 77 },
        Rgb8 { r: 65, g: 13, b: 96 },
        Rgb8 { r: 93, g: 18, b: 105 },
        Rgb8 { r: 121, g: 25, b: 108 },
        Rgb8 { r: 147, g: 35, b: 103 },
        Rgb8 { r: 173, g: 47, b: 90 },
        Rgb8 { r: 198, g: 61, b: 72 },
        Rgb8 { r: 219, g: 80, b: 50 },
        Rgb8 { r: 237, g: 102, b: 29 },
        Rgb8 { r: 247, g: 130, b: 16 },
        Rgb8 { r: 251, g: 163, b: 17 },
        Rgb8 { r: 247, g: 198, b: 39 },
        Rgb8 { r: 243, g: 232, b: 88 },
        Rgb8 { r: 250, g: 255, b: 168 },
    ];
    assert(r@ =~= inferno_spec());
    r
}

/// Turbo: dark blue through cyan, green and yellow to dark red, at 16 even steps.
pub open spec fn turbo_spec() -> Seq<Rgb8> {
    seq![
        rgb(35, 23, 27),
        rgb(74, 65, 181),
        rgb(66, 112, 242),
        rgb(47, 158, 245),
        rgb(37, 198, 215),
        rgb(47, 229, 173),
        rgb(78, 249, 131),
        rgb(124, 253, 94),
        rgb(176, 244, 68),
        rgb(223, 220, 50),
        rgb(255, 184, 39),
        rgb(255, 140, 31),
        rgb(244, 92, 23),
        rgb(206, 49, 13),
        rgb(163, 19, 2),
        rgb(144, 13, 0),
    ]
}

/// Turbo: dark blue through cyan, green and yellow to dark red, at 16 even steps.
pub fn turbo() -> (r: Vec<Rgb8>)
    ensures
        r@ == turbo_spec(),
{
    let r = vec![
        Rgb8 { r: 35, g: 23, b: 27 },
        Rgb8 { r: 74, g: 65, b: 181 },
        Rgb8 { r: 66, g: 112, b: 242 },
        Rgb8 { r: 47, g: 158, b: 245 },
        Rgb8 { r: 37, g: 198, b: 215 },
        Rgb8 { r: 47, g: 229, b: 173 },
        Rgb8 { r: 78, g: 249, b: 131 },
        Rgb8 { r: 124, g: 253, b: 94 },
        Rgb8 { r: 176, g: 244, b: 68 },
        Rgb8 { r: 223, g: 220, b: 50 },
        Rgb8 { r: 255, g: 184, b: 39 },
        Rgb8 { r: 255, g: 140, b: 31 },
        Rgb8 { r: 244, g: 92, b: 23 },
        Rgb8 { r: 206, g: 49, b: 13 },
        Rgb8 { r: 163, g: 19, b: 2 },
        Rgb8 { r: 144, g: 13, b: 0 },
    ];
    assert(r@ =~= turbo_spec());
    r
}

/// The entries of a named gradient.
pub open spec fn table_spec(p: PaletteName) -> Seq<Rgb8> {
    match p {
        PaletteName::Classic => classic_spec(),
        PaletteName::Lava => lava_spec(),
        PaletteName::Ocean => ocean_spec(),
        PaletteName::Magma => magma_spec(),
        PaletteName::Viridis => viridis_spec(),
        PaletteName::Inferno => inferno_spec(),
        PaletteName::Turbo => turbo_spec(),
    }
}

/// The ASCII spelling of a gradient's name.
pub open spec fn name_bytes(p: PaletteName) -> Seq<u8> {
    match p {
        PaletteName::Classic => seq![99u8, 108, 97, 115, 115, 105, 99],
        PaletteName::Lava => seq![108u8, 97, 118, 97],
        PaletteName::Ocean => seq![111u8, 99, 101, 97, 110],
        PaletteName::Magma => seq![109u8, 97, 103, 109, 97],
        PaletteName::Viridis => seq![118u8, 105, 114, 105, 100, 105, 115],
        PaletteName::Inferno => seq![105u8, 110, 102, 101, 114, 110, 111],
        PaletteName::Turbo => seq![116u8, 117, 114, 98, 111],
    }
}

/// The gradient spelled by `b`, if any.
pub open spec fn lookup_spec(b: Seq<u8>) -> Option<PaletteName> {
    if b == name_bytes(PaletteName::Classic) {
        Some(PaletteName::Classic)
    } else if b == name_bytes(PaletteName::Lava) {
        Some(PaletteName::Lava)
    } else if b == name_bytes(PaletteName::Ocean) {
        Some(PaletteName::Ocean)
    } else if b == name_bytes(PaletteName::Magma) {
        Some(PaletteName::Magma)
    } else if b == name_bytes(PaletteName::Viridis) {
        Some(PaletteName::Viridis)
    } else if b == name_bytes(PaletteName::Inferno) {
        Some(PaletteName::Inferno)
    } else if b == name_bytes(PaletteName::Turbo) {
        Some(PaletteName::Turbo)
    } else {
        None
    }
}

fn same_bytes(a: &[u8], w: &Vec<u8>) -> (r: bool)
    ensures
        r == (a@ == w@),
{
    if a.len() != w.len() {
        return false;
    }
    let mut i: usize = 0;
    while i < a.len()
        invariant
            a@.len() == w@.len(),
            i <= a@.len(),
            forall|j: int| 0 <= j < i ==> a@[j] == w@[j],
        decreases a.len() - i,
    {
        if a[i] != w[i] {
            return false;
        }
        i = i + 1;
    }
    assert(a@ =~= w@);
    true
}

fn spelling(p: PaletteName) -> (r: Vec<u8>)
    ensures
        r@ == name_bytes(p),
{
    let r = match p {
        PaletteName::Classic => vec![99u8, 108, 97, 115, 115, 105, 99],
        PaletteName::Lava => vec![108u8, 97, 118, 97],
        PaletteName::Ocean => vec![111u8, 99, 101, 97, 110],
        PaletteName::Magma => vec![109u8, 97, 103, 109, 97],
        PaletteName::Viridis => vec![118u8, 105, 114, 105, 100, 105, 115],
        PaletteName::Inferno => vec![105u8, 110, 102, 101, 114, 110, 111],
        PaletteName::Turbo => vec![116u8, 117, 114, 98, 111],
    };
    assert(r@ =~= name_bytes(p));
    r
}

/// Resolves a gradient name of the configuration.
pub fn palette_name(name: &str) -> (r: Result<PaletteName, ConfigError>)
    ensures
        match lookup_spec(name.spec_bytes()) {
            Some(p) => r == Ok::<PaletteName, ConfigError>(p),
            None => r == Err::<PaletteName, ConfigError>(ConfigError::UnknownPalette),
        },
{
    let b = name.as_bytes();
    if same_bytes(b, &spelling(PaletteName::Classic)) {
        Ok(PaletteName::Classic)
    } else if same_bytes(b, &spelling(PaletteName::Lava)) {
        Ok(PaletteName::Lava)
    } else if same_bytes(b, &spelling(PaletteName::Ocean)) {
        Ok(PaletteName::Ocean)
    } else if same_bytes(b, &spelling(PaletteName::Magma)) {
        Ok(PaletteName::Magma)
    } else if same_bytes(b, &spelling(PaletteName::Viridis)) {
        Ok(PaletteName::Viridis)
    } else if same_bytes(b, &spelling(PaletteName::Inferno)) {
        Ok(PaletteName::Inferno)
    } else if same_bytes(b, &spelling(PaletteName::Turbo)) {
        Ok(PaletteName::Turbo)
    } else {
        Err(ConfigError::UnknownPalette)
    }
}

/// The entries of the gradient `p`.
pub fn palette_table(p: PaletteName) -> (r: Vec<Rgb8>)
    ensures
        r@ == table_spec(p),
        r@.len() > 0,
{
    match p {
        PaletteName::Classic => classic(),
        PaletteName::Lava => lava(),
        PaletteName::Ocean => ocean(),
        PaletteName::Magma => magma(),
        PaletteName::Viridis => viridis(),
        PaletteName::Inferno => inferno(),
        PaletteName::Turbo => turbo(),
    }
}

/// The entries of the gradient called `name`.
pub fn parse_palette(name: &str) -> (r: Result<Vec<Rgb8>, ConfigError>)
    ensures
        match lookup_spec(name.spec_bytes()) {
            Some(p) => r is Ok && r->Ok_0@ == table_spec(p),
            None => r == Err::<Vec<Rgb8>, ConfigError>(ConfigError::UnknownPalette),
        },
{
    match palette_name(name) {
        Ok(p) => Ok(palette_table(p)),
        Err(e) => Err(e),
    }
}

/// The two neighbouring entries blended for a palette position whose
/// integer part is `k`: `k mod P` and the one after it, wrapping.
pub open spec fn slot_spec(k: int, len: nat) -> (nat, nat) {
    let c1 = k % (len as int);
    (c1 as nat, ((c1 + 1) % (len as int)) as nat)
}

/// Palette entries for a palette position whose integer part (its floor)
/// is `k`, in a palette of `len` entries.
pub fn palette_slots(k: i64, len: usize) -> (r: (usize, usize))
    requires
        len > 0,
    ensures
        r.0 == slot_spec(k as int, len as nat).0,
        r.1 == slot_spec(k as int, len as nat).1,
        r.0 < len,
        r.1 < len,
{
    let n: u128 = len as u128;
    let c1: u128 = if k >= 0 {
        (k as u128) % n
    } else {
        let a: u128 = (-(k as i128)) as u128;
        let r: u128 = a % n;
        proof {
            let ai = a as int;
            let ni = n as int;
            let q = ai / ni;
            vstd::arithmetic::div_mod::lemma_fundamental_div_mod(ai, ni);
            if r == 0 {
                vstd::arithmetic::div_mod::lemma_mod_multiples_vanish(-q, 0, ni);
                assert(k as int == ni * (-q) + 0) by (nonlinear_arith)
                    requires ai == ni * q + 0, k as int == -ai;
            } else {
                vstd::arithmetic::div_mod::lemma_mod_multiples_vanish(-q - 1, ni - r, ni);
                vstd::arithmetic::div_mod::lemma_small_mod((ni - r) as nat, ni as nat);
                assert(k as int == ni * (-q - 1) + (ni - r)) by (nonlinear_arith)
                    requires ai == ni * q + r, k as int == -ai;
            }
        }
        if r == 0 { 0 } else { n - r }
    };
    assert(c1 == (k as int) % (len as int));
    let c2: u128 = if c1 + 1 == n { 0 } else { c1 + 1 };
    proof {
        if c1 + 1 == n {
            vstd::arithmetic::div_mod::lemma_mod_self_0(n as int);
        } else {
            vstd::arithmetic::div_mod::lemma_small_mod((c1 + 1) as nat, n as nat);
        }
    }
    assert(c2 == (c1 as int + 1) % (n as int));
    (c1 as usize, c2 as usize)
}

/// Palette wrap: moving a palette position by any whole number of periods
/// picks the same two entries (the fractional blend weight is unchanged).
pub proof fn palette_wrap(k: int, j: int, len: nat)
    requires
        len > 0,
    ensures
        slot_spec(k + j * len, len) == slot_spec(k, len),
{
    vstd::arithmetic::div_mod::lemma_mod_multiples_vanish(j, k, len as int);
    assert(k + j * len == len * j + k) by (nonlinear_arith);
}

} // verus!
