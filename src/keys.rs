use vstd::prelude::*;

verus! {

/// The glyph that a raw key code stands for, or `None` for a code outside the
/// table of printable ASCII and accented Latin-1 letters.
pub open spec fn key_glyph(code: i32) -> Option<char> {
    match code {
        32 => Some(' '),
        33 => Some('!'),
        34 => Some('"'),
        35 => Some('#'),
        36 => Some('$'),
        37 => Some('%'),
        38 => Some('&'),
        39 => Some('\''),
        40 => Some('('),
        42 => Some('*'),
        41 => Some(')'),
        43 => Some('+'),
        44 => Some(','),
        45 => Some('-'),
        46 => Some('.'),
        47 => Some('/'),
        48 => Some('0'),
        49 => Some('1'),
        50 => Some('2'),
        51 => Some('3'),
        52 => Some('4'),
        53 => Some('5'),
        54 => Some('6'),
        55 => Some('7'),
        56 => Some('8'),
        57 => Some('9'),
        58 => Some(':'),
        59 => Some(';'),
        60 => Some('<'),
        61 => Some('='),
        62 => Some('>'),
        63 => Some('?'),
        64 => Some('@'),
        65 => Some('A'),
        66 => Some('B'),
        67 => Some('C'),
        68 => Some('D'),
        69 => Some('E'),
        70 => Some('F'),
        71 => Some('G'),
        72 => Some('H'),
        73 => Some('I'),
        74 => Some('J'),
        75 => Some('K'),
        76 => Some('L'),
        77 => Some('M'),
        78 => Some('N'),
        79 => Some('O'),
        80 => Some('P'),
        81 => Some('Q'),
        82 => Some('R'),
        83 => Some('S'),
        84 => Some('T'),
        85 => Some('U'),
        86 => Some('V'),
        87 => Some('W'),
        88 => Some('X'),
        89 => Some('Y'),
        90 => Some('Z'),
        91 => Some('['),
        92 => Some('\\'),
        93 => Some(']'),
        97 => Some('a'),
        98 => Some('b'),
        99 => Some('c'),
        100 => Some('d'),
        101 => Some('e'),
        102 => Some('f'),
        103 => Some('g'),
        104 => Some('h'),
        105 => Some('i'),
        106 => Some('j'),
        107 => Some('k'),
        108 => Some('l'),
        109 => Some('m'),
        110 => Some('n'),
        111 => Some('o'),
        112 => Some('p'),
        113 => Some('q'),
        114 => Some('r'),
        115 => Some('s'),
        116 => Some('t'),
        117 => Some('u'),
        118 => Some('v'),
        119 => Some('w'),
        120 => Some('x'),
        121 => Some('y'),
        122 => Some('z'),
        123 => Some('{'),
        124 => Some('|'),
        125 => Some('}'),
        129 => Some('Á'),
        130 => Some('Â'),
        131 => Some('Ã'),
        137 => Some('É'),
        138 => Some('Ê'),
        141 => Some('Í'),
        142 => Some('Î'),
        147 => Some('Ó'),
        148 => Some('Ô'),
        149 => Some('Õ'),
        154 => Some('Ú'),
        155 => Some('Û'),
        161 => Some('á'),
        162 => Some('â'),
        163 => Some('ã'),
        167 => Some('ç'),
        168 => Some('Ũ'),
        169 => Some('é'),
        170 => Some('ê'),
        173 => Some('í'),
        174 => Some('î'),
        179 => Some('ó'),
        180 => Some('ô'),
        181 => Some('õ'),
        186 => Some('ú'),
        188 => Some('Ẽ'),
        187 => Some('û'),
        189 => Some('ẽ'),
        _ => None,
    }
}

/// Decodes a raw key code into its glyph; codes outside the table give `None`
/// and are meant to be ignored by the caller.
pub fn from_code_to_key(code: i32) -> (r: Option<char>)
    ensures
        r == key_glyph(code),
{
    match code {
        32 => Some(' '),
        33 => Some('!'),
        34 => Some('"'),
        35 => Some('#'),
        36 => Some('$'),
        37 => Some('%'),
        38 => Some('&'),
        39 => Some('\''),
        40 => Some('('),
        42 => Some('*'),
        41 => Some(')'),
        43 => Some('+'),
        44 => Some(','),
        45 => Some('-'),
        46 => Some('.'),
        47 => Some('/'),
        48 => Some('0'),
        49 => Some('1'),
        50 => Some('2'),
        51 => Some('3'),
        52 => Some('4'),
        53 => Some('5'),
        54 => Some('6'),
        55 => Some('7'),
        56 => Some('8'),
        57 => Some('9'),
        58 => Some(':'),
        59 => Some(';'),
        60 => Some('<'),
        61 => Some('='),
        62 => Some('>'),
        63 => Some('?'),
        64 => Some('@'),
        65 => Some('A'),
        66 => Some('B'),
        67 => Some('C'),
        68 => Some('D'),
        69 => Some('E'),
        70 => Some('F'),
        71 => Some('G'),
        72 => Some('H'),
        73 => Some('I'),
        74 => Some('J'),
        75 => Some('K'),
        76 => Some('L'),
        77 => Some('M'),
        78 => Some('N'),
        79 => Some('O'),
        80 => Some('P'),
        81 => Some('Q'),
        82 => Some('R'),
        83 => Some('S'),
        84 => Some('T'),
        85 => Some('U'),
        86 => Some('V'),
        87 => Some('W'),
        88 => Some('X'),
        89 => Some('Y'),
        90 => Some('Z'),
        91 => Some('['),
        92 => Some('\\'),
        93 => Some(']'),
        97 => Some('a'),
        98 => Some('b'),
        99 => Some('c'),
        100 => Some('d'),
        101 => Some('e'),
        102 => Some('f'),
        103 => Some('g'),
        104 => Some('h'),
        105 => Some('i'),
        106 => Some('j'),
        107 => Some('k'),
        108 => Some('l'),
        109 => Some('m'),
        110 => Some('n'),
        111 => Some('o'),
        112 => Some('p'),
        113 => Some('q'),
        114 => Some('r'),
        115 => Some('s'),
        116 => Some('t'),
        117 => Some('u'),
        118 => Some('v'),
        119 => Some('w'),
        120 => Some('x'),
        121 => Some('y'),
        122 => Some('z'),
        123 => Some('{'),
        124 => Some('|'),
        125 => Some('}'),
        129 => Some('Á'),
        130 => Some('Â'),
        131 => Some('Ã'),
        137 => Some('É'),
        138 => Some('Ê'),
        141 => Some('Í'),
        142 => Some('Î'),
        147 => Some('Ó'),
        148 => Some('Ô'),
        149 => Some('Õ'),
        154 => Some('Ú'),
        155 => Some('Û'),
        161 => Some('á'),
        162 => Some('â'),
        163 => Some('ã'),
        167 => Some('ç'),
        168 => Some('Ũ'),
        169 => Some('é'),
        170 => Some('ê'),
        173 => Some('í'),
        174 => Some('î'),
        179 => Some('ó'),
        180 => Some('ô'),
        181 => Some('õ'),
        186 => Some('ú'),
        188 => Some('Ẽ'),
        187 => Some('û'),
        189 => Some('ẽ'),
        _ => None,
    }
}

} // verus!
