//! The glyph table: a fixed mapping from each supported character to its
//! six-row ASCII-art block form.
//!
//! The table is constant data: it is defined once here and is read-only.
//! `lookup` is the per-character query that the renderer uses, and
//! `get_letter_data` exposes the whole table as a hash map keyed by the
//! character's code point.

use vstd::prelude::*;
use std::collections::HashMap;

verus! {

broadcast use vstd::std_specs::hash::group_hash_axioms;

/// Every glyph has exactly this many rows.
pub const GLYPH_ROWS: usize = 6;

/// The characters the glyph table supports: the uppercase letters and a
/// small set of punctuation.
pub open spec fn is_supported(c: char) -> bool {
    c == 'A'
    || c == 'B'
    || c == 'C'
    || c == 'D'
    || c == 'E'
    || c == 'F'
    || c == 'G'
    || c == 'H'
    || c == 'I'
    || c == 'J'
    || c == 'K'
    || c == 'L'
    || c == 'M'
    || c == 'N'
    || c == 'O'
    || c == 'P'
    || c == 'Q'
    || c == 'R'
    || c == 'S'
    || c == 'T'
    || c == 'U'
    || c == 'V'
    || c == 'W'
    || c == 'X'
    || c == 'Y'
    || c == 'Z'
    || c == '!'
    || c == '.'
    || c == '@'
    || c == '_'
    || c == '-'
    || c == ':'
    || c == '\''
}

/// The six rows of the glyph for a supported character; the empty
/// sequence for any other character.
pub open spec fn glyph_rows(c: char) -> Seq<Seq<char>> {
    if c == 'A' {
        seq![
            "    ███╗   "@,
            "   ████╗   "@,
            "  ██╔██╗   "@,
            " ██╔╝██╗   "@,
            "███████╗   "@,
            "╚══════╝   "@,
        ]
    } else if c == 'B' {
        seq![
            "██████╗   "@,
            "██╔══██╗  "@,
            "██████╔╝  "@,
            "██╔═══╝   "@,
            "██████╗   "@,
            "╚═════╝   "@,
        ]
    } else if c == 'C' {
        seq![
            " ██████╗  "@,
            "██╔════╝  "@,
            "██║       "@,
            "██║       "@,
            "╚██████╗  "@,
            " ╚═════╝  "@,
        ]
    } else if c == 'D' {
        seq![
            "██████╗   "@,
            "██╔══██╗  "@,
            "██║  ██║  "@,
            "██║  ██║  "@,
            "██████╔╝  "@,
            "╚═════╝   "@,
        ]
    } else if c == 'E' {
        seq![
            "███████╗  "@,
            "██╔════╝  "@,
            "█████╗    "@,
            "██╔══╝    "@,
            "███████╗  "@,
            "╚══════╝  "@,
        ]
    } else if c == 'F' {
        seq![
            "███████╗  "@,
            "██╔════╝  "@,
            "█████╗    "@,
            "██╔══╝    "@,
            "██║       "@,
            "╚═╝       "@,
        ]
    } else if c == 'G' {
        seq![
            " ██████╗   "@,
            "██╔════╝   "@,
            "██║  ███╗  "@,
            "██║   ██║  "@,
            "╚██████╔╝  "@,
            " ╚═════╝   "@,
        ]
    } else if c == 'H' {
        seq![
            "██╗  ██╗  "@,
            "██║  ██║  "@,
            "███████║  "@,
            "██╔══██║  "@,
            "██║  ██║  "@,
            "╚═╝  ╚═╝  "@,
        ]
    } else if c == 'I' {
        seq![
            "██╗  "@,
            "██║  "@,
            "██║  "@,
            "██║  "@,
            "██║  "@,
            "╚═╝  "@,
        ]
    } else if c == 'J' {
        seq![
            "     ██╗  "@,
            "     ██║  "@,
            "     ██║  "@,
            "██   ██║  "@,
            "╚█████╔╝  "@,
            " ╚════╝   "@,
        ]
    } else if c == 'K' {
        seq![
            "██╗  ██╗  "@,
            "██║ ██╔╝  "@,
            "█████╔╝   "@,
            "██╔═██╗   "@,
            "██║  ██╗  "@,
            "╚═╝  ╚═╝  "@,
        ]
    } else if c == 'L' {
        seq![
            "██╗       "@,
            "██║       "@,
            "██║       "@,
            "██║       "@,
            "███████╗  "@,
            "╚══════╝  "@,
        ]
    } else if c == 'M' {
        seq![
            "███╗   ███╗  "@,
            "████╗ ████║  "@,
            "██╔████╔██║  "@,
            "██║╚██╔╝██║  "@,
            "██║ ╚═╝ ██║  "@,
            "╚═╝     ╚═╝  "@,
        ]
    } else if c == 'N' {
        seq![
            "███╗   ██╗  "@,
            "████╗  ██║  "@,
            "██╔██╗ ██║  "@,
            "██║╚██╗██║  "@,
            "██║ ╚████║  "@,
            "╚═╝  ╚═══╝  "@,
        ]
    } else if c == 'O' {
        seq![
            " ██████╗   "@,
            "██╔═══██╗  "@,
            "██║   ██║  "@,
            "██║   ██║  "@,
            "╚██████╔╝  "@,
            " ╚═════╝   "@,
        ]
    } else if c == 'P' {
        seq![
            "██████╗   "@,
            "██╔══██╗  "@,
            "██████╔╝  "@,
            "██╔═══╝   "@,
            "██║       "@,
            "╚═╝       "@,
        ]
    } else if c == 'Q' {
        seq![
            " ██████╗   "@,
            "██╔═══██╗  "@,
            "██║   ██║  "@,
            "██║▄▄ ██║  "@,
            "╚██████╔╝  "@,
            " ╚══▀▀═╝   "@,
        ]
    } else if c == 'R' {
        seq![
            "██████╗   "@,
            "██╔══██╗  "@,
            "██████╔╝  "@,
            "██╔══██╗  "@,
            "██║  ██║  "@,
            "╚═╝  ╚═╝  "@,
        ]
    } else if c == 'S' {
        seq![
            "███████╗  "@,
            "██╔════╝  "@,
            "███████╗  "@,
            "╚════██║  "@,
            "███████║  "@,
            "╚══════╝  "@,
        ]
    } else if c == 'T' {
        seq![
            "████████╗  "@,
            "╚══██╔══╝  "@,
            "   ██║     "@,
            "   ██║     "@,
            "   ██║     "@,
            "   ╚═╝     "@,
        ]
    } else if c == 'U' {
        seq![
            "██╗   ██╗  "@,
            "██║   ██║  "@,
            "██║   ██║  "@,
            "██║   ██║  "@,
            "╚██████╔╝  "@,
            " ╚═════╝   "@,
        ]
    } else if c == 'V' {
        seq![
            " ██╗   ██╗  "@,
            " ██║   ██║  "@,
            " ██║   ██║  "@,
            " ╚██╗ ██╔╝  "@,
            "  ╚████╔╝   "@,
            "   ╚═══╝    "@,
        ]
    } else if c == 'W' {
        seq![
            "██╗    ██╗  "@,
            "██║    ██║  "@,
            "██║ █╗ ██║  "@,
            "██║███╗██║  "@,
            "╚███╔███╔╝  "@,
            " ╚══╝╚══╝   "@,
        ]
    } else if c == 'X' {
        seq![
            "██╗  ██╗  "@,
            "╚██╗██╔╝  "@,
            " ╚███╔╝   "@,
            " ██╔██╗   "@,
            "██╔╝ ██╗  "@,
            "╚═╝  ╚═╝  "@,
        ]
    } else if c == 'Y' {
        seq![
            "██╗   ██╗ "@,
            "╚██╗ ██╔╝ "@,
            " ╚████╔╝  "@,
            "  ╚██╔╝   "@,
            "   ██║    "@,
            "   ╚═╝    "@,
        ]
    } else if c == 'Z' {
        seq![
            "███████╗  "@,
            "╚══███╔╝  "@,
            "  ███╔╝   "@,
            " ███╔╝    "@,
            "███████╗  "@,
            "╚══════╝  "@,
        ]
    } else if c == '!' {
        seq![
            " ██╗  "@,
            " ██║  "@,
            " ██║  "@,
            "      "@,
            " ██║  "@,
            " ╚═╝  "@,
        ]
    } else if c == '.' {
        seq![
            "      "@,
            "      "@,
            "      "@,
            "      "@,
            " ██║  "@,
            " ╚═╝  "@,
        ]
    } else if c == '@' {
        seq![
            " ██████╗   "@,
            "██╔═══██╗  "@,
            "██║██╗██║  "@,
            "██║██║██║  "@,
            "╚█║████╔╝  "@,
            " ╚╝╚═══╝   "@,
        ]
    } else if c == '_' {
        seq![
            "          "@,
            "          "@,
            "          "@,
            "          "@,
            "███████╗  "@,
            "╚══════╝  "@,
        ]
    } else if c == '-' {
        seq![
            "          "@,
            "          "@,
            "███████╗  "@,
            "╚══════╝  "@,
            "          "@,
            "          "@,
        ]
    } else if c == ':' {
        seq![
            "      "@,
            "███╗  "@,
            "╚══╝  "@,
            "███╗  "@,
            "╚══╝  "@,
            "      "@,
        ]
    } else if c == '\'' {
        seq![
            "  ██╗ "@,
            " ██╔╝ "@,
            "██╔╝  "@,
            "╚═╝   "@,
            "      "@,
            "      "@,
        ]
    } else {
        Seq::empty()
    }
}

/// Look a character up in the glyph table.
pub fn lookup(c: char) -> (g: Option<Vec<&'static str>>)
    ensures
        match g {
            Some(v) => is_supported(c) && v@.len() == GLYPH_ROWS && v.deep_view() == glyph_rows(c),
            None => !is_supported(c),
        },
{
    if c == 'A' {
        let v: Vec<&'static str> = vec![
            "    ███╗   ",
            "   ████╗   ",
            "  ██╔██╗   ",
            " ██╔╝██╗   ",
            "███████╗   ",
            "╚══════╝   ",
        ];
        proof {
            assert(v.deep_view() =~= glyph_rows(c));
        }
        Some(v)
    } else if c == 'B' {
        let v: Vec<&'static str> = vec![
            "██████╗   ",
            "██╔══██╗  ",
            "██████╔╝  ",
            "██╔═══╝   ",
            "██████╗   ",
            "╚═════╝   ",
        ];
        proof {
            assert(v.deep_view() =~= glyph_rows(c));
        }
        Some(v)
    } else if c == 'C' {
        let v: Vec<&'static str> = vec![
            " ██████╗  ",
            "██╔════╝  ",
            "██║       ",
            "██║       ",
            "╚██████╗  ",
            " ╚═════╝  ",
        ];
        proof {
            assert(v.deep_view() =~= glyph_rows(c));
        }
        Some(v)
    } else if c == 'D' {
        let v: Vec<&'static str> = vec![
            "██████╗   ",
            "██╔══██╗  ",
            "██║  ██║  ",
            "██║  ██║  ",
            "██████╔╝  ",
            "╚═════╝   ",
        ];
        proof {
            assert(v.deep_view() =~= glyph_rows(c));
        }
        Some(v)
    } else if c == 'E' {
        let v: Vec<&'static str> = vec![
            "███████╗  ",
            "██╔════╝  ",
            "█████╗    ",
            "██╔══╝    ",
            "███████╗  ",
            "╚══════╝  ",
        ];
        proof {
            assert(v.deep_view() =~= glyph_rows(c));
        }
        Some(v)
    } else if c == 'F' {
        let v: Vec<&'static str> = vec![
            "███████╗  ",
            "██╔════╝  ",
            "█████╗    ",
            "██╔══╝    ",
            "██║       ",
            "╚═╝       ",
        ];
        proof {
            assert(v.deep_view() =~= glyph_rows(c));
        }
        Some(v)
    } else if c == 'G' {
        let v: Vec<&'static str> = vec![
            " ██████╗   ",
            "██╔════╝   ",
            "██║  ███╗  ",
            "██║   ██║  ",
            "╚██████╔╝  ",
            " ╚═════╝   ",
        ];
        proof {
            assert(v.deep_view() =~= glyph_rows(c));
        }
        Some(v)
    } else if c == 'H' {
        let v: Vec<&'static str> = vec![
            "██╗  ██╗  ",
            "██║  ██║  ",
            "███████║  ",
            "██╔══██║  ",
            "██║  ██║  ",
            "╚═╝  ╚═╝  ",
        ];
        proof {
            assert(v.deep_view() =~= glyph_rows(c));
        }
        Some(v)
    } else if c == 'I' {
        let v: Vec<&'static str> = vec![
            "██╗  ",
            "██║  ",
            "██║  ",
            "██║  ",
            "██║  ",
            "╚═╝  ",
        ];
        proof {
            assert(v.deep_view() =~= glyph_rows(c));
        }
        Some(v)
    } else if c == 'J' {
        let v: Vec<&'static str> = vec![
            "     ██╗  ",
            "     ██║  ",
            "     ██║  ",
            "██   ██║  ",
            "╚█████╔╝  ",
            " ╚════╝   ",
        ];
        proof {
            assert(v.deep_view() =~= glyph_rows(c));
        }
        Some(v)
    } else if c == 'K' {
        let v: Vec<&'static str> = vec![
            "██╗  ██╗  ",
            "██║ ██╔╝  ",
            "█████╔╝   ",
            "██╔═██╗   ",
            "██║  ██╗  ",
            "╚═╝  ╚═╝  ",
        ];
        proof {
            assert(v.deep_view() =~= glyph_rows(c));
        }
        Some(v)
    } else if c == 'L' {
        let v: Vec<&'static str> = vec![
            "██╗       ",
            "██║       ",
            "██║       ",
            "██║       ",
            "███████╗  ",
            "╚══════╝  ",
        ];
        proof {
            assert(v.deep_view() =~= glyph_rows(c));
        }
        Some(v)
    } else if c == 'M' {
        let v: Vec<&'static str> = vec![
            "███╗   ███╗  ",
            "████╗ ████║  ",
            "██╔████╔██║  ",
            "██║╚██╔╝██║  ",
            "██║ ╚═╝ ██║  ",
            "╚═╝     ╚═╝  ",
        ];
        proof {
            assert(v.deep_view() =~= glyph_rows(c));
        }
        Some(v)
    } else if c == 'N' {
        let v: Vec<&'static str> = vec![
            "███╗   ██╗  ",
            "████╗  ██║  ",
            "██╔██╗ ██║  ",
            "██║╚██╗██║  ",
            "██║ ╚████║  ",
            "╚═╝  ╚═══╝  ",
        ];
        proof {
            assert(v.deep_view() =~= glyph_rows(c));
        }
        Some(v)
    } else if c == 'O' {
        let v: Vec<&'static str> = vec![
            " ██████╗   ",
            "██╔═══██╗  ",
            "██║   ██║  ",
            "██║   ██║  ",
            "╚██████╔╝  ",
            " ╚═════╝   ",
        ];
        proof {
            assert(v.deep_view() =~= glyph_rows(c));
        }
        Some(v)
    } else if c == 'P' {
        let v: Vec<&'static str> = vec![
            "██████╗   ",
            "██╔══██╗  ",
            "██████╔╝  ",
            "██╔═══╝   ",
            "██║       ",
            "╚═╝       ",
        ];
        proof {
            assert(v.deep_view() =~= glyph_rows(c));
        }
        Some(v)
    } else if c == 'Q' {
        let v: Vec<&'static str> = vec![
            " ██████╗   ",
            "██╔═══██╗  ",
            "██║   ██║  ",
            "██║▄▄ ██║  ",
            "╚██████╔╝  ",
            " ╚══▀▀═╝   ",
        ];
        proof {
            assert(v.deep_view() =~= glyph_rows(c));
        }
        Some(v)
    } else if c == 'R' {
        let v: Vec<&'static str> = vec![
            "██████╗   ",
            "██╔══██╗  ",
            "██████╔╝  ",
            "██╔══██╗  ",
            "██║  ██║  ",
            "╚═╝  ╚═╝  ",
        ];
        proof {
            assert(v.deep_view() =~= glyph_rows(c));
        }
        Some(v)
    } else if c == 'S' {
        let v: Vec<&'static str> = vec![
            "███████╗  ",
            "██╔════╝  ",
            "███████╗  ",
            "╚════██║  ",
            "███████║  ",
            "╚══════╝  ",
        ];
        proof {
            assert(v.deep_view() =~= glyph_rows(c));
        }
        Some(v)
    } else if c == 'T' {
        let v: Vec<&'static str> = vec![
            "████████╗  ",
            "╚══██╔══╝  ",
            "   ██║     ",
            "   ██║     ",
            "   ██║     ",
            "   ╚═╝     ",
        ];
        proof {
            assert(v.deep_view() =~= glyph_rows(c));
        }
        Some(v)
    } else if c == 'U' {
        let v: Vec<&'static str> = vec![
            "██╗   ██╗  ",
            "██║   ██║  ",
            "██║   ██║  ",
            "██║   ██║  ",
            "╚██████╔╝  ",
            " ╚═════╝   ",
        ];
        proof {
            assert(v.deep_view() =~= glyph_rows(c));
        }
        Some(v)
    } else if c == 'V' {
        let v: Vec<&'static str> = vec![
            " ██╗   ██╗  ",
            " ██║   ██║  ",
            " ██║   ██║  ",
            " ╚██╗ ██╔╝  ",
            "  ╚████╔╝   ",
            "   ╚═══╝    ",
        ];
        proof {
            assert(v.deep_view() =~= glyph_rows(c));
        }
        Some(v)
    } else if c == 'W' {
        let v: Vec<&'static str> = vec![
            "██╗    ██╗  ",
            "██║    ██║  ",
            "██║ █╗ ██║  ",
            "██║███╗██║  ",
            "╚███╔███╔╝  ",
            " ╚══╝╚══╝   ",
        ];
        proof {
            assert(v.deep_view() =~= glyph_rows(c));
        }
        Some(v)
    } else if c == 'X' {
        let v: Vec<&'static str> = vec![
            "██╗  ██╗  ",
            "╚██╗██╔╝  ",
            " ╚███╔╝   ",
            " ██╔██╗   ",
            "██╔╝ ██╗  ",
            "╚═╝  ╚═╝  ",
        ];
        proof {
            assert(v.deep_view() =~= glyph_rows(c));
        }
        Some(v)
    } else if c == 'Y' {
        let v: Vec<&'static str> = vec![
            "██╗   ██╗ ",
            "╚██╗ ██╔╝ ",
            " ╚████╔╝  ",
            "  ╚██╔╝   ",
            "   ██║    ",
            "   ╚═╝    ",
        ];
        proof {
            assert(v.deep_view() =~= glyph_rows(c));
        }
        Some(v)
    } else if c == 'Z' {
        let v: Vec<&'static str> = vec![
            "███████╗  ",
            "╚══███╔╝  ",
            "  ███╔╝   ",
            " ███╔╝    ",
            "███████╗  ",
            "╚══════╝  ",
        ];
        proof {
            assert(v.deep_view() =~= glyph_rows(c));
        }
        Some(v)
    } else if c == '!' {
        let v: Vec<&'static str> = vec![
            " ██╗  ",
            " ██║  ",
            " ██║  ",
            "      ",
            " ██║  ",
            " ╚═╝  ",
        ];
        proof {
            assert(v.deep_view() =~= glyph_rows(c));
        }
        Some(v)
    } else if c == '.' {
        let v: Vec<&'static str> = vec![
            "      ",
            "      ",
            "      ",
            "      ",
            " ██║  ",
            " ╚═╝  ",
        ];
        proof {
            assert(v.deep_view() =~= glyph_rows(c));
        }
        Some(v)
    } else if c == '@' {
        let v: Vec<&'static str> = vec![
            " ██████╗   ",
            "██╔═══██╗  ",
            "██║██╗██║  ",
            "██║██║██║  ",
            "╚█║████╔╝  ",
            " ╚╝╚═══╝   ",
        ];
        proof {
            assert(v.deep_view() =~= glyph_rows(c));
        }
        Some(v)
    } else if c == '_' {
        let v: Vec<&'static str> = vec![
            "          ",
            "          ",
            "          ",
            "          ",
            "███████╗  ",
            "╚══════╝  ",
        ];
        proof {
            assert(v.deep_view() =~= glyph_rows(c));
        }
        Some(v)
    } else if c == '-' {
        let v: Vec<&'static str> = vec![
            "          ",
            "          ",
            "███████╗  ",
            "╚══════╝  ",
            "          ",
            "          ",
        ];
        proof {
            assert(v.deep_view() =~= glyph_rows(c));
        }
        Some(v)
    } else if c == ':' {
        let v: Vec<&'static str> = vec![
            "      ",
            "███╗  ",
            "╚══╝  ",
            "███╗  ",
            "╚══╝  ",
            "      ",
        ];
        proof {
            assert(v.deep_view() =~= glyph_rows(c));
        }
        Some(v)
    } else if c == '\'' {
        let v: Vec<&'static str> = vec![
            "  ██╗ ",
            " ██╔╝ ",
            "██╔╝  ",
            "╚═╝   ",
            "      ",
            "      ",
        ];
        proof {
            assert(v.deep_view() =~= glyph_rows(c));
        }
        Some(v)
    } else {
        None
    }
}


/// The supported characters, in the table's insertion order.
pub open spec fn supported_seq() -> Seq<char> {
    seq!['A', 'B', 'C', 'D', 'E', 'F', 'G', 'H', 'I', 'J', 'K', 'L', 'M', 'N', 'O', 'P', 'Q', 'R', 'S', 'T', 'U', 'V', 'W', 'X', 'Y', 'Z', '!', '.', '@', '_', '-', ':', '\'']
}

/// The supported characters as a vector, for building the table and for
/// walking it.
pub fn supported_chars() -> (v: Vec<char>)
    ensures
        v@ == supported_seq(),
{
    let v: Vec<char> = vec!['A', 'B', 'C', 'D', 'E', 'F', 'G', 'H', 'I', 'J', 'K', 'L', 'M', 'N', 'O', 'P', 'Q', 'R', 'S', 'T', 'U', 'V', 'W', 'X', 'Y', 'Z', '!', '.', '@', '_', '-', ':', '\''];
    proof {
        assert(v@ =~= supported_seq());
    }
    v
}

/// A character is supported exactly when it occurs in `supported_seq`.
pub proof fn lemma_supported_iff_in_seq(c: char)
    ensures
        is_supported(c) <==> supported_seq().contains(c),
{
    if is_supported(c) {
        if c == 'A' {
            assert(supported_seq()[0] == 'A');
        }
        if c == 'B' {
            assert(supported_seq()[1] == 'B');
        }
        if c == 'C' {
            assert(supported_seq()[2] == 'C');
        }
        if c == 'D' {
            assert(supported_seq()[3] == 'D');
        }
        if c == 'E' {
            assert(supported_seq()[4] == 'E');
        }
        if c == 'F' {
            assert(supported_seq()[5] == 'F');
        }
        if c == 'G' {
            assert(supported_seq()[6] == 'G');
        }
        if c == 'H' {
            assert(supported_seq()[7] == 'H');
        }
        if c == 'I' {
            assert(supported_seq()[8] == 'I');
        }
        if c == 'J' {
            assert(supported_seq()[9] == 'J');
        }
        if c == 'K' {
            assert(supported_seq()[10] == 'K');
        }
        if c == 'L' {
            assert(supported_seq()[11] == 'L');
        }
        if c == 'M' {
            assert(supported_seq()[12] == 'M');
        }
        if c == 'N' {
            assert(supported_seq()[13] == 'N');
        }
        if c == 'O' {
            assert(supported_seq()[14] == 'O');
        }
        if c == 'P' {
            assert(supported_seq()[15] == 'P');
        }
        if c == 'Q' {
            assert(supported_seq()[16] == 'Q');
        }
        if c == 'R' {
            assert(supported_seq()[17] == 'R');
        }
        if c == 'S' {
            assert(supported_seq()[18] == 'S');
        }
        if c == 'T' {
            assert(supported_seq()[19] == 'T');
        }
        if c == 'U' {
            assert(supported_seq()[20] == 'U');
        }
        if c == 'V' {
            assert(supported_seq()[21] == 'V');
        }
        if c == 'W' {
            assert(supported_seq()[22] == 'W');
        }
        if c == 'X' {
            assert(supported_seq()[23] == 'X');
        }
        if c == 'Y' {
            assert(supported_seq()[24] == 'Y');
        }
        if c == 'Z' {
            assert(supported_seq()[25] == 'Z');
        }
        if c == '!' {
            assert(supported_seq()[26] == '!');
        }
        if c == '.' {
            assert(supported_seq()[27] == '.');
        }
        if c == '@' {
            assert(supported_seq()[28] == '@');
        }
        if c == '_' {
            assert(supported_seq()[29] == '_');
        }
        if c == '-' {
            assert(supported_seq()[30] == '-');
        }
        if c == ':' {
            assert(supported_seq()[31] == ':');
        }
        if c == '\'' {
            assert(supported_seq()[32] == '\'');
        }
    }
    if supported_seq().contains(c) {
        let i = choose|i: int| 0 <= i < supported_seq().len() && supported_seq()[i] == c;
        assert(is_supported(supported_seq()[i]));
    }
}

/// Every entry of `supported_seq` is supported.
pub proof fn lemma_supported_seq_elts()
    ensures
        forall|j: int|
            0 <= j < supported_seq().len() ==> is_supported(#[trigger] supported_seq()[j]),
{
}

/// Every supported character's glyph has exactly six rows.
pub proof fn lemma_glyph_rows_len(c: char)
    requires
        is_supported(c),
    ensures
        glyph_rows(c).len() == GLYPH_ROWS,
{
}


/// All six rows of a supported character's glyph have one width, so
/// the columns of a rendered banner stay aligned.
pub proof fn lemma_glyph_rows_uniform_width(c: char)
    requires
        is_supported(c),
    ensures
        forall|i: int|
            0 <= i < GLYPH_ROWS ==> #[trigger] glyph_rows(c)[i].len() == glyph_rows(c)[0].len(),
{
    if c == 'A' {
        reveal_strlit("    ███╗   ");
        reveal_strlit("   ████╗   ");
        reveal_strlit("  ██╔██╗   ");
        reveal_strlit(" ██╔╝██╗   ");
        reveal_strlit("███████╗   ");
        reveal_strlit("╚══════╝   ");
        assert(glyph_rows(c)[0].len() == 11);
        assert(glyph_rows(c)[1].len() == 11);
        assert(glyph_rows(c)[2].len() == 11);
        assert(glyph_rows(c)[3].len() == 11);
        assert(glyph_rows(c)[4].len() == 11);
        assert(glyph_rows(c)[5].len() == 11);
    } else if c == 'B' {
        reveal_strlit("██████╗   ");
        reveal_strlit("██╔══██╗  ");
        reveal_strlit("██████╔╝  ");
        reveal_strlit("██╔═══╝   ");
        reveal_strlit("╚═════╝   ");
        assert(glyph_rows(c)[0].len() == 10);
        assert(glyph_rows(c)[1].len() == 10);
        assert(glyph_rows(c)[2].len() == 10);
        assert(glyph_rows(c)[3].len() == 10);
        assert(glyph_rows(c)[4].len() == 10);
        assert(glyph_rows(c)[5].len() == 10);
    } else if c == 'C' {
        reveal_strlit(" ██████╗  ");
        reveal_strlit("██╔════╝  ");
        reveal_strlit("██║       ");
        reveal_strlit("╚██████╗  ");
        reveal_strlit(" ╚═════╝  ");
        assert(glyph_rows(c)[0].len() == 10);
        assert(glyph_rows(c)[1].len() == 10);
        assert(glyph_rows(c)[2].len() == 10);
        assert(glyph_rows(c)[3].len() == 10);
        assert(glyph_rows(c)[4].len() == 10);
        assert(glyph_rows(c)[5].len() == 10);
    } else if c == 'D' {
        reveal_strlit("██████╗   ");
        reveal_strlit("██╔══██╗  ");
        reveal_strlit("██║  ██║  ");
        reveal_strlit("██████╔╝  ");
        reveal_strlit("╚═════╝   ");
        assert(glyph_rows(c)[0].len() == 10);
        assert(glyph_rows(c)[1].len() == 10);
        assert(glyph_rows(c)[2].len() == 10);
        assert(glyph_rows(c)[3].len() == 10);
        assert(glyph_rows(c)[4].len() == 10);
        assert(glyph_rows(c)[5].len() == 10);
    } else if c == 'E' {
        reveal_strlit("███████╗  ");
        reveal_strlit("██╔════╝  ");
        reveal_strlit("█████╗    ");
        reveal_strlit("██╔══╝    ");
        reveal_strlit("╚══════╝  ");
        assert(glyph_rows(c)[0].len() == 10);
        assert(glyph_rows(c)[1].len() == 10);
        assert(glyph_rows(c)[2].len() == 10);
        assert(glyph_rows(c)[3].len() == 10);
        assert(glyph_rows(c)[4].len() == 10);
        assert(glyph_rows(c)[5].len() == 10);
    } else if c == 'F' {
        reveal_strlit("███████╗  ");
        reveal_strlit("██╔════╝  ");
        reveal_strlit("█████╗    ");
        reveal_strlit("██╔══╝    ");
        reveal_strlit("██║       ");
        reveal_strlit("╚═╝       ");
        assert(glyph_rows(c)[0].len() == 10);
        assert(glyph_rows(c)[1].len() == 10);
        assert(glyph_rows(c)[2].len() == 10);
        assert(glyph_rows(c)[3].len() == 10);
        assert(glyph_rows(c)[4].len() == 10);
        assert(glyph_rows(c)[5].len() == 10);
    } else if c == 'G' {
        reveal_strlit(" ██████╗   ");
        reveal_strlit("██╔════╝   ");
        reveal_strlit("██║  ███╗  ");
        reveal_strlit("██║   ██║  ");
        reveal_strlit("╚██████╔╝  ");
        reveal_strlit(" ╚═════╝   ");
        assert(glyph_rows(c)[0].len() == 11);
        assert(glyph_rows(c)[1].len() == 11);
        assert(glyph_rows(c)[2].len() == 11);
        assert(glyph_rows(c)[3].len() == 11);
        assert(glyph_rows(c)[4].len() == 11);
        assert(glyph_rows(c)[5].len() == 11);
    } else if c == 'H' {
        reveal_strlit("██╗  ██╗  ");
        reveal_strlit("██║  ██║  ");
        reveal_strlit("███████║  ");
        reveal_strlit("██╔══██║  ");
        reveal_strlit("╚═╝  ╚═╝  ");
        assert(glyph_rows(c)[0].len() == 10);
        assert(glyph_rows(c)[1].len() == 10);
        assert(glyph_rows(c)[2].len() == 10);
        assert(glyph_rows(c)[3].len() == 10);
        assert(glyph_rows(c)[4].len() == 10);
        assert(glyph_rows(c)[5].len() == 10);
    } else if c == 'I' {
        reveal_strlit("██╗  ");
        reveal_strlit("██║  ");
        reveal_strlit("╚═╝  ");
        assert(glyph_rows(c)[0].len() == 5);
        assert(glyph_rows(c)[1].len() == 5);
        assert(glyph_rows(c)[2].len() == 5);
        assert(glyph_rows(c)[3].len() == 5);
        assert(glyph_rows(c)[4].len() == 5);
        assert(glyph_rows(c)[5].len() == 5);
    } else if c == 'J' {
        reveal_strlit("     ██╗  ");
        reveal_strlit("     ██║  ");
        reveal_strlit("██   ██║  ");
        reveal_strlit("╚█████╔╝  ");
        reveal_strlit(" ╚════╝   ");
        assert(glyph_rows(c)[0].len() == 10);
        assert(glyph_rows(c)[1].len() == 10);
        assert(glyph_rows(c)[2].len() == 10);
        assert(glyph_rows(c)[3].len() == 10);
        assert(glyph_rows(c)[4].len() == 10);
        assert(glyph_rows(c)[5].len() == 10);
    } else if c == 'K' {
        reveal_strlit("██╗  ██╗  ");
        reveal_strlit("██║ ██╔╝  ");
        reveal_strlit("█████╔╝   ");
        reveal_strlit("██╔═██╗   ");
        reveal_strlit("██║  ██╗  ");
        reveal_strlit("╚═╝  ╚═╝  ");
        assert(glyph_rows(c)[0].len() == 10);
        assert(glyph_rows(c)[1].len() == 10);
        assert(glyph_rows(c)[2].len() == 10);
        assert(glyph_rows(c)[3].len() == 10);
        assert(glyph_rows(c)[4].len() == 10);
        assert(glyph_rows(c)[5].len() == 10);
    } else if c == 'L' {
        reveal_strlit("██╗       ");
        reveal_strlit("██║       ");
        reveal_strlit("███████╗  ");
        reveal_strlit("╚══════╝  ");
        assert(glyph_rows(c)[0].len() == 10);
        assert(glyph_rows(c)[1].len() == 10);
        assert(glyph_rows(c)[2].len() == 10);
        assert(glyph_rows(c)[3].len() == 10);
        assert(glyph_rows(c)[4].len() == 10);
        assert(glyph_rows(c)[5].len() == 10);
    } else if c == 'M' {
        reveal_strlit("███╗   ███╗  ");
        reveal_strlit("████╗ ████║  ");
        reveal_strlit("██╔████╔██║  ");
        reveal_strlit("██║╚██╔╝██║  ");
        reveal_strlit("██║ ╚═╝ ██║  ");
        reveal_strlit("╚═╝     ╚═╝  ");
        assert(glyph_rows(c)[0].len() == 13);
        assert(glyph_rows(c)[1].len() == 13);
        assert(glyph_rows(c)[2].len() == 13);
        assert(glyph_rows(c)[3].len() == 13);
        assert(glyph_rows(c)[4].len() == 13);
        assert(glyph_rows(c)[5].len() == 13);
    } else if c == 'N' {
        reveal_strlit("███╗   ██╗  ");
        reveal_strlit("████╗  ██║  ");
        reveal_strlit("██╔██╗ ██║  ");
        reveal_strlit("██║╚██╗██║  ");
        reveal_strlit("██║ ╚████║  ");
        reveal_strlit("╚═╝  ╚═══╝  ");
        assert(glyph_rows(c)[0].len() == 12);
        assert(glyph_rows(c)[1].len() == 12);
        assert(glyph_rows(c)[2].len() == 12);
        assert(glyph_rows(c)[3].len() == 12);
        assert(glyph_rows(c)[4].len() == 12);
        assert(glyph_rows(c)[5].len() == 12);
    } else if c == 'O' {
        reveal_strlit(" ██████╗   ");
        reveal_strlit("██╔═══██╗  ");
        reveal_strlit("██║   ██║  ");
        reveal_strlit("╚██████╔╝  ");
        reveal_strlit(" ╚═════╝   ");
        assert(glyph_rows(c)[0].len() == 11);
        assert(glyph_rows(c)[1].len() == 11);
        assert(glyph_rows(c)[2].len() == 11);
        assert(glyph_rows(c)[3].len() == 11);
        assert(glyph_rows(c)[4].len() == 11);
        assert(glyph_rows(c)[5].len() == 11);
    } else if c == 'P' {
        reveal_strlit("██████╗   ");
        reveal_strlit("██╔══██╗  ");
        reveal_strlit("██████╔╝  ");
        reveal_strlit("██╔═══╝   ");
        reveal_strlit("██║       ");
        reveal_strlit("╚═╝       ");
        assert(glyph_rows(c)[0].len() == 10);
        assert(glyph_rows(c)[1].len() == 10);
        assert(glyph_rows(c)[2].len() == 10);
        assert(glyph_rows(c)[3].len() == 10);
        assert(glyph_rows(c)[4].len() == 10);
        assert(glyph_rows(c)[5].len() == 10);
    } else if c == 'Q' {
        reveal_strlit(" ██████╗   ");
        reveal_strlit("██╔═══██╗  ");
        reveal_strlit("██║   ██║  ");
        reveal_strlit("██║▄▄ ██║  ");
        reveal_strlit("╚██████╔╝  ");
        reveal_strlit(" ╚══▀▀═╝   ");
        assert(glyph_rows(c)[0].len() == 11);
        assert(glyph_rows(c)[1].len() == 11);
        assert(glyph_rows(c)[2].len() == 11);
        assert(glyph_rows(c)[3].len() == 11);
        assert(glyph_rows(c)[4].len() == 11);
        assert(glyph_rows(c)[5].len() == 11);
    } else if c == 'R' {
        reveal_strlit("██████╗   ");
        reveal_strlit("██╔══██╗  ");
        reveal_strlit("██████╔╝  ");
        reveal_strlit("██║  ██║  ");
        reveal_strlit("╚═╝  ╚═╝  ");
        assert(glyph_rows(c)[0].len() == 10);
        assert(glyph_rows(c)[1].len() == 10);
        assert(glyph_rows(c)[2].len() == 10);
        assert(glyph_rows(c)[3].len() == 10);
        assert(glyph_rows(c)[4].len() == 10);
        assert(glyph_rows(c)[5].len() == 10);
    } else if c == 'S' {
        reveal_strlit("███████╗  ");
        reveal_strlit("██╔════╝  ");
        reveal_strlit("╚════██║  ");
        reveal_strlit("███████║  ");
        reveal_strlit("╚══════╝  ");
        assert(glyph_rows(c)[0].len() == 10);
        assert(glyph_rows(c)[1].len() == 10);
        assert(glyph_rows(c)[2].len() == 10);
        assert(glyph_rows(c)[3].len() == 10);
        assert(glyph_rows(c)[4].len() == 10);
        assert(glyph_rows(c)[5].len() == 10);
    } else if c == 'T' {
        reveal_strlit("████████╗  ");
        reveal_strlit("╚══██╔══╝  ");
        reveal_strlit("   ██║     ");
        reveal_strlit("   ╚═╝     ");
        assert(glyph_rows(c)[0].len() == 11);
        assert(glyph_rows(c)[1].len() == 11);
        assert(glyph_rows(c)[2].len() == 11);
        assert(glyph_rows(c)[3].len() == 11);
        assert(glyph_rows(c)[4].len() == 11);
        assert(glyph_rows(c)[5].len() == 11);
    } else if c == 'U' {
        reveal_strlit("██╗   ██╗  ");
        reveal_strlit("██║   ██║  ");
        reveal_strlit("╚██████╔╝  ");
        reveal_strlit(" ╚═════╝   ");
        assert(glyph_rows(c)[0].len() == 11);
        assert(glyph_rows(c)[1].len() == 11);
        assert(glyph_rows(c)[2].len() == 11);
        assert(glyph_rows(c)[3].len() == 11);
        assert(glyph_rows(c)[4].len() == 11);
        assert(glyph_rows(c)[5].len() == 11);
    } else if c == 'V' {
        reveal_strlit(" ██╗   ██╗  ");
        reveal_strlit(" ██║   ██║  ");
        reveal_strlit(" ╚██╗ ██╔╝  ");
        reveal_strlit("  ╚████╔╝   ");
        reveal_strlit("   ╚═══╝    ");
        assert(glyph_rows(c)[0].len() == 12);
        assert(glyph_rows(c)[1].len() == 12);
        assert(glyph_rows(c)[2].len() == 12);
        assert(glyph_rows(c)[3].len() == 12);
        assert(glyph_rows(c)[4].len() == 12);
        assert(glyph_rows(c)[5].len() == 12);
    } else if c == 'W' {
        reveal_strlit("██╗    ██╗  ");
        reveal_strlit("██║    ██║  ");
        reveal_strlit("██║ █╗ ██║  ");
        reveal_strlit("██║███╗██║  ");
        reveal_strlit("╚███╔███╔╝  ");
        reveal_strlit(" ╚══╝╚══╝   ");
        assert(glyph_rows(c)[0].len() == 12);
        assert(glyph_rows(c)[1].len() == 12);
        assert(glyph_rows(c)[2].len() == 12);
        assert(glyph_rows(c)[3].len() == 12);
        assert(glyph_rows(c)[4].len() == 12);
        assert(glyph_rows(c)[5].len() == 12);
    } else if c == 'X' {
        reveal_strlit("██╗  ██╗  ");
        reveal_strlit("╚██╗██╔╝  ");
        reveal_strlit(" ╚███╔╝   ");
        reveal_strlit(" ██╔██╗   ");
        reveal_strlit("██╔╝ ██╗  ");
        reveal_strlit("╚═╝  ╚═╝  ");
        assert(glyph_rows(c)[0].len() == 10);
        assert(glyph_rows(c)[1].len() == 10);
        assert(glyph_rows(c)[2].len() == 10);
        assert(glyph_rows(c)[3].len() == 10);
        assert(glyph_rows(c)[4].len() == 10);
        assert(glyph_rows(c)[5].len() == 10);
    } else if c == 'Y' {
        reveal_strlit("██╗   ██╗ ");
        reveal_strlit("╚██╗ ██╔╝ ");
        reveal_strlit(" ╚████╔╝  ");
        reveal_strlit("  ╚██╔╝   ");
        reveal_strlit("   ██║    ");
        reveal_strlit("   ╚═╝    ");
        assert(glyph_rows(c)[0].len() == 10);
        assert(glyph_rows(c)[1].len() == 10);
        assert(glyph_rows(c)[2].len() == 10);
        assert(glyph_rows(c)[3].len() == 10);
        assert(glyph_rows(c)[4].len() == 10);
        assert(glyph_rows(c)[5].len() == 10);
    } else if c == 'Z' {
        reveal_strlit("███████╗  ");
        reveal_strlit("╚══███╔╝  ");
        reveal_strlit("  ███╔╝   ");
        reveal_strlit(" ███╔╝    ");
        reveal_strlit("╚══════╝  ");
        assert(glyph_rows(c)[0].len() == 10);
        assert(glyph_rows(c)[1].len() == 10);
        assert(glyph_rows(c)[2].len() == 10);
        assert(glyph_rows(c)[3].len() == 10);
        assert(glyph_rows(c)[4].len() == 10);
        assert(glyph_rows(c)[5].len() == 10);
    } else if c == '!' {
        reveal_strlit(" ██╗  ");
        reveal_strlit(" ██║  ");
        reveal_strlit("      ");
        reveal_strlit(" ╚═╝  ");
        assert(glyph_rows(c)[0].len() == 6);
        assert(glyph_rows(c)[1].len() == 6);
        assert(glyph_rows(c)[2].len() == 6);
        assert(glyph_rows(c)[3].len() == 6);
        assert(glyph_rows(c)[4].len() == 6);
        assert(glyph_rows(c)[5].len() == 6);
    } else if c == '.' {
        reveal_strlit("      ");
        reveal_strlit(" ██║  ");
        reveal_strlit(" ╚═╝  ");
        assert(glyph_rows(c)[0].len() == 6);
        assert(glyph_rows(c)[1].len() == 6);
        assert(glyph_rows(c)[2].len() == 6);
        assert(glyph_rows(c)[3].len() == 6);
        assert(glyph_rows(c)[4].len() == 6);
        assert(glyph_rows(c)[5].len() == 6);
    } else if c == '@' {
        reveal_strlit(" ██████╗   ");
        reveal_strlit("██╔═══██╗  ");
        reveal_strlit("██║██╗██║  ");
        reveal_strlit("██║██║██║  ");
        reveal_strlit("╚█║████╔╝  ");
        reveal_strlit(" ╚╝╚═══╝   ");
        assert(glyph_rows(c)[0].len() == 11);
        assert(glyph_rows(c)[1].len() == 11);
        assert(glyph_rows(c)[2].len() == 11);
        assert(glyph_rows(c)[3].len() == 11);
        assert(glyph_rows(c)[4].len() == 11);
        assert(glyph_rows(c)[5].len() == 11);
    } else if c == '_' {
        reveal_strlit("          ");
        reveal_strlit("███████╗  ");
        reveal_strlit("╚══════╝  ");
        assert(glyph_rows(c)[0].len() == 10);
        assert(glyph_rows(c)[1].len() == 10);
        assert(glyph_rows(c)[2].len() == 10);
        assert(glyph_rows(c)[3].len() == 10);
        assert(glyph_rows(c)[4].len() == 10);
        assert(glyph_rows(c)[5].len() == 10);
    } else if c == '-' {
        reveal_strlit("          ");
        reveal_strlit("███████╗  ");
        reveal_strlit("╚══════╝  ");
        assert(glyph_rows(c)[0].len() == 10);
        assert(glyph_rows(c)[1].len() == 10);
        assert(glyph_rows(c)[2].len() == 10);
        assert(glyph_rows(c)[3].len() == 10);
        assert(glyph_rows(c)[4].len() == 10);
        assert(glyph_rows(c)[5].len() == 10);
    } else if c == ':' {
        reveal_strlit("      ");
        reveal_strlit("███╗  ");
        reveal_strlit("╚══╝  ");
        assert(glyph_rows(c)[0].len() == 6);
        assert(glyph_rows(c)[1].len() == 6);
        assert(glyph_rows(c)[2].len() == 6);
        assert(glyph_rows(c)[3].len() == 6);
        assert(glyph_rows(c)[4].len() == 6);
        assert(glyph_rows(c)[5].len() == 6);
    } else if c == '\'' {
        reveal_strlit("  ██╗ ");
        reveal_strlit(" ██╔╝ ");
        reveal_strlit("██╔╝  ");
        reveal_strlit("╚═╝   ");
        reveal_strlit("      ");
        assert(glyph_rows(c)[0].len() == 6);
        assert(glyph_rows(c)[1].len() == 6);
        assert(glyph_rows(c)[2].len() == 6);
        assert(glyph_rows(c)[3].len() == 6);
        assert(glyph_rows(c)[4].len() == 6);
        assert(glyph_rows(c)[5].len() == 6);
    }
}

/// The whole glyph table as a hash map, keyed by the character's code
/// point. The map holds exactly the supported characters, each with the
/// rows that `glyph_rows` gives it.
pub fn get_letter_data() -> (m: HashMap<u32, Vec<&'static str>>)
    ensures
        forall|c: char| #[trigger]
            is_supported(c) ==> m@.contains_key(c as u32) && m@[c as u32].deep_view()
                == glyph_rows(c),
        forall|k: u32| #[trigger]
            m@.contains_key(k) ==> exists|c: char| is_supported(c) && k == c as u32,
        m@.len() == supported_seq().len(),
{
    let chars = supported_chars();
    let mut m: HashMap<u32, Vec<&'static str>> = HashMap::new();
    let n = chars.len();
    let mut i: usize = 0;
    proof {
        lemma_supported_seq_elts();
    }
    while i < n
        invariant
            n == supported_seq().len(),
            chars@ == supported_seq(),
            i <= n,
            forall|j: int|
                0 <= j < supported_seq().len() ==> is_supported(#[trigger] supported_seq()[j]),
            forall|j: int|
                0 <= j < i ==> m@.contains_key(#[trigger] supported_seq()[j] as u32)
                    && m@[supported_seq()[j] as u32].deep_view() == glyph_rows(supported_seq()[j]),
            forall|k: u32| #[trigger]
                m@.contains_key(k) ==> exists|j: int| 0 <= j < i && k == supported_seq()[j] as u32,
            m@.len() == i,
        decreases n - i,
    {
        let c = chars[i];
        match lookup(c) {
            Some(v) => {
                proof {
                    assert(!m@.contains_key(c as u32));
                }
                m.insert(c as u32, v);
            },
            None => {
                proof {
                    assert(false);
                }
            },
        }
        i += 1;
    }
    proof {
        assert forall|c: char| #[trigger] is_supported(c) implies m@.contains_key(c as u32)
            && m@[c as u32].deep_view() == glyph_rows(c) by {
            lemma_supported_iff_in_seq(c);
            let j = choose|j: int| 0 <= j < supported_seq().len() && supported_seq()[j] == c;
            assert(m@.contains_key(supported_seq()[j] as u32));
        }
        assert forall|k: u32| #[trigger] m@.contains_key(k) implies exists|c: char|
            is_supported(c) && k == c as u32 by {
            let j = choose|j: int| 0 <= j < supported_seq().len() && k == supported_seq()[j] as u32;
            assert(is_supported(supported_seq()[j]));
        }
    }
    m
}

} // verus!
