//! Fixed console text, and the colour-style rule for the CLI front
//! end: the printing itself is the caller's business, the choice of
//! style is made and checked here.

use crate::strutil::str_eq;
use vstd::prelude::*;

verus! {

/// The startup banner.
pub open spec fn banner_text() -> Seq<char> {
    "
\t   @@╗        @@@@@@@╗   @@@@@@@@╗   @@@@@@@@╗   @@@@@@@╗   @@@@@@╗    
\t   ██╗        ███████╗   ████████╗   ████████╗   ███████╗   ██████╗    
\t   ██║        ██╔════╝   ╚══██╔══╝   ╚══██╔══╝   ██╔════╝   ██╔══██╗   
\t   ██║        █████╗        ██║         ██║      █████╗     ██████╔╝   
\t   ██║        ██╔══╝        ██║         ██║      ██╔══╝     ██╔══██╗   
\t   ███████╗   ███████╗      ██║         ██║      ███████╗   ██║  ██║   
\t   ╚══════╝   ╚══════╝      ╚═╝         ╚═╝      ╚══════╝   ╚═╝  ╚═╝ 
\t    ╚══════╝   ╚══════╝      ╚═╝         ╚═╝      ╚══════╝   ╚═╝  ╚═╝ 
\t     ╚══════╝   ╚══════╝      ╚═╝         ╚═╝      ╚══════╝   ╚═╝  ╚═╝ 

"@
}

/// The banner shown at startup.
pub fn show_banner() -> (r: &'static str)
    ensures
        r@ == banner_text(),
{
    "
\t   @@╗        @@@@@@@╗   @@@@@@@@╗   @@@@@@@@╗   @@@@@@@╗   @@@@@@╗    
\t   ██╗        ███████╗   ████████╗   ████████╗   ███████╗   ██████╗    
\t   ██║        ██╔════╝   ╚══██╔══╝   ╚══██╔══╝   ██╔════╝   ██╔══██╗   
\t   ██║        █████╗        ██║         ██║      █████╗     ██████╔╝   
\t   ██║        ██╔══╝        ██║         ██║      ██╔══╝     ██╔══██╗   
\t   ███████╗   ███████╗      ██║         ██║      ███████╗   ██║  ██║   
\t   ╚══════╝   ╚══════╝      ╚═╝         ╚═╝      ╚══════╝   ╚═╝  ╚═╝ 
\t    ╚══════╝   ╚══════╝      ╚═╝         ╚═╝      ╚══════╝   ╚═╝  ╚═╝ 
\t     ╚══════╝   ╚══════╝      ╚═╝         ╚═╝      ╚══════╝   ╚═╝  ╚═╝ 

"
}

/// The quick-help sample invocation.
pub open spec fn big_help_text() -> Seq<char> {
    "\n\t cargo run -- --output letter.md letter"@
}

/// The quick-help message shown for the big-help flag.
pub fn get_big_help() -> (r: &'static str)
    ensures
        r@ == big_help_text(),
{
    "\n\t cargo run -- --output letter.md letter"
}

/// The colours the console printer distinguishes.
#[derive(Clone, Copy, PartialEq, Eq, Structural, Debug)]
pub enum TextColour {
    Green,
    Red,
    Cyan,
    Purple,
    Blue,
    Yellow,
}

/// How one message is printed: its colour, whether the line is
/// terminated, and whether the output stream is flushed around it.
#[derive(Clone, Copy, PartialEq, Eq, Structural, Debug)]
pub struct PrintStyle {
    pub colour: TextColour,
    pub line_feed: bool,
    pub flush: bool,
}

/// The style each colour name selects; unknown names print yellow
/// with a line feed.
pub open spec fn spec_style(colour: Seq<char>) -> PrintStyle {
    if colour == "flush_green"@ {
        PrintStyle { colour: TextColour::Green, line_feed: false, flush: true }
    } else if colour == "green"@ {
        PrintStyle { colour: TextColour::Green, line_feed: true, flush: false }
    } else if colour == "green_noLineFeed"@ {
        PrintStyle { colour: TextColour::Green, line_feed: false, flush: false }
    } else if colour == "red"@ {
        PrintStyle { colour: TextColour::Red, line_feed: true, flush: false }
    } else if colour == "cyan"@ {
        PrintStyle { colour: TextColour::Cyan, line_feed: true, flush: false }
    } else if colour == "purple"@ {
        PrintStyle { colour: TextColour::Purple, line_feed: true, flush: false }
    } else if colour == "purple_noLineFeed"@ {
        PrintStyle { colour: TextColour::Purple, line_feed: false, flush: false }
    } else if colour == "blue"@ {
        PrintStyle { colour: TextColour::Blue, line_feed: true, flush: false }
    } else if colour == "yellow"@ {
        PrintStyle { colour: TextColour::Yellow, line_feed: true, flush: false }
    } else if colour == "yellow_noLineFeed"@ {
        PrintStyle { colour: TextColour::Yellow, line_feed: false, flush: false }
    } else {
        PrintStyle { colour: TextColour::Yellow, line_feed: true, flush: false }
    }
}

/// Choose the print style for a colour name.
pub fn colour_style(colour: &str) -> (r: PrintStyle)
    ensures
        r == spec_style(colour@),
{
    if str_eq(colour, "flush_green") {
        PrintStyle { colour: TextColour::Green, line_feed: false, flush: true }
    } else if str_eq(colour, "green") {
        PrintStyle { colour: TextColour::Green, line_feed: true, flush: false }
    } else if str_eq(colour, "green_noLineFeed") {
        PrintStyle { colour: TextColour::Green, line_feed: false, flush: false }
    } else if str_eq(colour, "red") {
        PrintStyle { colour: TextColour::Red, line_feed: true, flush: false }
    } else if str_eq(colour, "cyan") {
        PrintStyle { colour: TextColour::Cyan, line_feed: true, flush: false }
    } else if str_eq(colour, "purple") {
        PrintStyle { colour: TextColour::Purple, line_feed: true, flush: false }
    } else if str_eq(colour, "purple_noLineFeed") {
        PrintStyle { colour: TextColour::Purple, line_feed: false, flush: false }
    } else if str_eq(colour, "blue") {
        PrintStyle { colour: TextColour::Blue, line_feed: true, flush: false }
    } else if str_eq(colour, "yellow") {
        PrintStyle { colour: TextColour::Yellow, line_feed: true, flush: false }
    } else if str_eq(colour, "yellow_noLineFeed") {
        PrintStyle { colour: TextColour::Yellow, line_feed: false, flush: false }
    } else {
        PrintStyle { colour: TextColour::Yellow, line_feed: true, flush: false }
    }
}

} // verus!
