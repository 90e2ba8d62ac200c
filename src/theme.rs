use vstd::prelude::*;
use vstd::string::StringExecFns;

use crate::color::{colorize, styled, Color};
use crate::text::{concat_all, lemma_concat_take, lines_of, longest_len, max_len, split_lines, views};

verus! {

broadcast use vstd::string::group_string_axioms;

/// The art of the wavey theme.
pub const WAVEY_ART: &'static str = "                                  __
                               _.-~  )
                    _..--~~~~,'   ,-/     _
                 .-'. . . .'   ,-','    ,' )
               ,'. . . _   ,--~,-'__..-'  ,'
             ,'. . .  (@)' ---~~~~      ,'
            /. . . . '~~             ,-'
           /. . . . .             ,-'
          ; . . . .  - .        ,'
         : . . . .       _     /
        . . . . .          `-.:
       . . . ./  - .          )
      .  . . |  _____..---.._/ ____ Seal _
~---~~~~----~~~~             ~~";

/// The art of the alone theme.
pub const ALONE_ART: &'static str = "     _                  _
    | '-.            .-' |
    | -. '..\\\\,.//,.' .- |
    |   \\  \\\\\\||///  /   |
   /|    )M\\/%%%%/\\/(  . |\\
  (/\\  MM\\/%/\\||/%\\\\/MM  /\\)
  (//M   \\%\\\\\\%%//%//   M\\\\)
(// M________ /\\ ________M \\\\)
 (// M\\ \\(',)|  |(',)/ /M \\\\) \\\\\\\\
  (\\\\ M\\.  /,\\\\//,\\  ./M //)
    / MMmm( \\\\||// )mmMM \\  \\\\
     // MMM\\\\\\||///MMM \\\\ \\\\
      \\//''\\)/||\\(/''\\\\/ \\\\
      mrf\\\\( \\oo/ )\\\\\\/\\
           \\'-..-'\\/\\\\
              \\\\/ \\\\
        ";

/// The art of the desert theme.
pub const DESERT_ART: &'static str = " ___.-''''-.
/___  @    |
',,,,.     |         _.'''''''._
     '     |        /           \\
     |     \\    _.-'             \\
     |      '.-'                  '-.
     |                               ',
     |                                '',
      ',,-,                           ':;
           ',,| ;,,                 ,' ;;
              ! ; !'',,,',',,,,'!  ;   ;:
             : ;  ! !       ! ! ;  ;   :;
             ; ;   ! !      ! !  ; ;   ;,
            ; ;    ! !     ! !   ; ;
            ; ;    ! !    ! !     ; ;
           ;,,      !,!   !,!     ;,;
           /_I      L_I   L_I     /_I";
/// The themes that come built in.
#[derive(Clone, Copy, Debug, PartialEq, Eq, Structural)]
pub enum DefaultTheme {
    Wavey,
    Alone,
    Desert,
}

/// The art of a built-in theme.
pub open spec fn art_of(t: DefaultTheme) -> Seq<char> {
    match t {
        DefaultTheme::Wavey => WAVEY_ART@,
        DefaultTheme::Alone => ALONE_ART@,
        DefaultTheme::Desert => DESERT_ART@,
    }
}

/// The primary colour of a built-in theme.
pub open spec fn primary_of(t: DefaultTheme) -> Color {
    match t {
        DefaultTheme::Wavey => Color::Blue,
        DefaultTheme::Alone => Color::DarkRed,
        DefaultTheme::Desert => Color::DarkYellow,
    }
}

/// One swatch of the colour visual: three full blocks.
pub open spec fn swatch() -> Seq<char> {
    seq!['\u{2588}', '\u{2588}', '\u{2588}']
}

/// The colours of the visual, in order.
pub open spec fn swatch_colors() -> Seq<Color> {
    seq![
        Color::Black,
        Color::Red,
        Color::Green,
        Color::Yellow,
        Color::Blue,
        Color::Magenta,
        Color::Cyan,
        Color::White,
    ]
}

/// The segments of the colour visual: a swatch in each colour, in order.
pub open spec fn visual_segments() -> Seq<Seq<char>> {
    swatch_colors().map_values(|c: Color| styled(swatch(), c))
}

/// A piece of art with the two colours that the summary is drawn in.
pub struct Theme {
    art: String,
    primary: Color,
    secondary: Color,
    longest_line_len: usize,
}

impl Theme {
    /// The art.
    pub closed spec fn art(&self) -> Seq<char> {
        self.art@
    }

    /// The colour of the art and of the labels.
    pub closed spec fn primary(&self) -> Color {
        self.primary
    }

    /// The colour of the values.
    pub closed spec fn secondary(&self) -> Color {
        self.secondary
    }

    /// The stored length of the art's longest line matches the art.
    pub closed spec fn wf(&self) -> bool {
        self.longest_line_len as nat == max_len(lines_of(self.art@))
    }

    /// A theme of `art` in the two colours.
    pub fn new(art: &str, primary: Color, secondary: Color) -> (r: Theme)
        ensures
            r.wf(),
            r.art() == art@,
            r.primary() == primary,
            r.secondary() == secondary,
    {
        let lines = split_lines(art);
        let longest_line_len = longest_len(&lines);
        Theme { art: String::from_str(art), primary, secondary, longest_line_len }
    }

    /// The art, as it was given.
    pub fn get_art(&self) -> (r: String)
        ensures
            r@ == self.art(),
    {
        self.art.clone()
    }

    pub fn get_primary(&self) -> (r: Color)
        ensures
            r == self.primary(),
    {
        self.primary
    }

    pub fn get_secondary(&self) -> (r: Color)
        ensures
            r == self.secondary(),
    {
        self.secondary
    }

    /// The number of characters in the art's longest line.
    pub fn get_longest_line_len(&self) -> (r: usize)
        requires
            self.wf(),
        ensures
            r as nat == max_len(lines_of(self.art())),
    {
        self.longest_line_len
    }

    /// A swatch of three blocks in each of the eight standard colours, in the
    /// order black, red, green, yellow, blue, magenta, cyan, white.
    pub fn get_theme_visual(&self) -> (r: String)
        ensures
            r@ == concat_all(visual_segments()),
    {
        let colors: [Color; 8] = [
            Color::Black,
            Color::Red,
            Color::Green,
            Color::Yellow,
            Color::Blue,
            Color::Magenta,
            Color::Cyan,
            Color::White,
        ];
        assert(colors@ =~= swatch_colors());
        let block: &str = "\u{2588}\u{2588}\u{2588}";
        proof {
            reveal_strlit("\u{2588}\u{2588}\u{2588}");
            assert(block@ =~= swatch());
        }
        let ghost segments = visual_segments();
        let mut out = String::new();
        let mut i: usize = 0;
        while i < 8
            invariant
                i <= 8,
                colors@ == swatch_colors(),
                block@ == swatch(),
                segments == visual_segments(),
                out@ == concat_all(segments.take(i as int)),
            decreases 8 - i,
        {
            let part = colorize(block, colors[i]);
            proof {
                lemma_concat_take(segments, i as int);
            }
            out.append(part.as_str());
            i = i + 1;
        }
        assert(segments.take(8) =~= segments);
        out
    }

    /// One of the built-in themes; each draws its values in white.
    pub fn create_default_theme(theme: DefaultTheme) -> (r: Theme)
        ensures
            r.wf(),
            r.art() == art_of(theme),
            r.primary() == primary_of(theme),
            r.secondary() == Color::White,
    {
        match theme {
            DefaultTheme::Wavey => Theme::new(WAVEY_ART, Color::Blue, Color::White),
            DefaultTheme::Alone => Theme::new(ALONE_ART, Color::DarkRed, Color::White),
            DefaultTheme::Desert => Theme::new(DESERT_ART, Color::DarkYellow, Color::White),
        }
    }
}

/// The longest line length is 0 for art without lines, is at least the length
/// of every line, and is the length of one of them otherwise.
pub proof fn lemma_longest_line(art: Seq<char>)
    ensures
        art.len() == 0 ==> max_len(lines_of(art)) == 0,
        forall|i: int|
            0 <= i < lines_of(art).len() ==> #[trigger] lines_of(art)[i].len() <= max_len(
                lines_of(art),
            ),
        lines_of(art).len() > 0 ==> exists|i: int|
            0 <= i < lines_of(art).len() && #[trigger] lines_of(art)[i].len() == max_len(
                lines_of(art),
            ),
{
    if art.len() == 0 {
        assert(lines_of(art).len() == 0);
    }
    lemma_max_len(lines_of(art));
}

proof fn lemma_max_len(lines: Seq<Seq<char>>)
    ensures
        forall|i: int| 0 <= i < lines.len() ==> #[trigger] lines[i].len() <= max_len(lines),
        lines.len() > 0 ==> exists|i: int|
            0 <= i < lines.len() && #[trigger] lines[i].len() == max_len(lines),
    decreases lines.len(),
{
    if lines.len() > 0 {
        let rest = lines.drop_last();
        lemma_max_len(rest);
        assert forall|i: int| 0 <= i < lines.len() implies #[trigger] lines[i].len() <= max_len(
            lines,
        ) by {
            if i < rest.len() {
                assert(rest[i] == lines[i]);
            }
        }
        if lines.last().len() > max_len(rest) || rest.len() == 0 {
            assert(lines[lines.len() - 1].len() == max_len(lines));
        } else {
            let j = choose|j: int| 0 <= j < rest.len() && #[trigger] rest[j].len() == max_len(rest);
            assert(lines[j].len() == max_len(lines));
        }
    }
}

/// The colour visual is eight segments, one per standard colour in a fixed
/// order, each the same three visible characters in that colour.
pub proof fn lemma_visual_segments()
    ensures
        visual_segments().len() == 8,
        swatch().len() == 3,
        forall|i: int|
            0 <= i < 8 ==> #[trigger] visual_segments()[i] == styled(swatch(), swatch_colors()[i]),
{
}

} // verus!
