//! The table of colour schemes.

use vstd::prelude::*;
use vstd::string::StringExecFns;
use crate::color::Color;

verus! {

/// A colour scheme: the colour of the untouched canvas and the colours of
/// the layers, which are used in turn.
#[derive(Debug)]
pub struct Colors {
    pub name: String,
    pub background: Color,
    pub layers: Vec<Color>,
}

/// The mathematical value of a [`Colors`].
pub struct Palette {
    pub name: Seq<char>,
    pub background: Color,
    pub layers: Seq<Color>,
}

impl View for Colors {
    type V = Palette;

    open spec fn view(&self) -> Palette {
        Palette { name: self.name@, background: self.background, layers: self.layers@ }
    }
}

impl Clone for Colors {
    fn clone(&self) -> (copy: Colors)
        ensures
            copy@ == self@,
    {
        let mut layers: Vec<Color> = Vec::new();
        for i in 0..self.layers.len()
            invariant
                layers@ == self.layers@.take(i as int),
        {
            layers.push(self.layers[i]);
        }
        assert(layers@ =~= self.layers@);
        Colors { name: self.name.clone(), background: self.background, layers }
    }
}

/// The colour with the given channels.
pub open spec fn rgb(r: u8, g: u8, b: u8) -> Color {
    Color { r, g, b }
}

/// The colour of the layer that is painted when `steps` levels remain: the
/// layers are used cyclically.
pub open spec fn layer_color(layers: Seq<Color>, steps: nat) -> Color
    recommends
        layers.len() > 0,
{
    layers[(steps % layers.len()) as int]
}

/// The fixed table of colour schemes. Every selector names a scheme: the
/// ones that the table does not list name the last.
pub open spec fn palette(option: u32) -> Palette {
    if option == 1 {
        Palette {
            name: "Classic_Contrast"@,
            background: rgb(0, 0, 0),
            layers: seq![rgb(255, 255, 255)],
        }
    } else if option == 2 {
        Palette {
            name: "Inverted_Classic"@,
            background: rgb(255, 255, 255),
            layers: seq![rgb(0, 0, 0)],
        }
    } else if option == 3 {
        Palette {
            name: "Gold_Velvet"@,
            background: rgb(63, 63, 116),
            layers: seq![rgb(255, 188, 66), rgb(209, 74, 80)],
        }
    } else if option == 4 {
        Palette {
            name: "Earthy_Tones"@,
            background: rgb(85, 98, 112),
            layers: seq![rgb(255, 193, 87), rgb(54, 179, 126), rgb(194, 62, 62)],
        }
    } else if option == 5 {
        Palette {
            name: "Contrast_Harmony"@,
            background: rgb(33, 33, 33),
            layers: seq![rgb(239, 108, 0), rgb(181, 181, 181)],
        }
    } else if option == 6 {
        Palette {
            name: "Bold_Neutrals"@,
            background: rgb(64, 64, 64),
            layers: seq![rgb(255, 145, 0), rgb(255, 188, 66), rgb(0, 0, 0)],
        }
    } else {
        Palette {
            name: "Sophisticated_Duo"@,
            background: rgb(48, 63, 159),
            layers: seq![rgb(244, 143, 177), rgb(242, 203, 68)],
        }
    }
}

/// `c` may stand in the name of a colour scheme: a letter or a digit of
/// ASCII, or an underscore.
pub open spec fn is_name_char(c: char) -> bool {
    ||| 'a' <= c <= 'z'
    ||| 'A' <= c <= 'Z'
    ||| '0' <= c <= '9'
    ||| c == '_'
}

/// `name` can stand in a file name as it is: it is not empty and holds
/// nothing but letters, digits and underscores.
pub open spec fn is_safe_name(name: Seq<char>) -> bool {
    &&& name.len() > 0
    &&& forall|i: int| 0 <= i < name.len() ==> is_name_char(#[trigger] name[i])
}

impl Colors {
    /// The scheme has a layer to paint with.
    pub open spec fn wf(&self) -> bool {
        self.layers@.len() > 0
    }

    /// The colour of the layer that is painted when `steps` levels remain.
    pub fn get_layer_color(&self, steps: usize) -> (color: Color)
        requires
            self.wf(),
        ensures
            color == layer_color(self.layers@, steps as nat),
    {
        self.layers[steps % self.layers.len()]
    }

    /// The colour scheme that `option` selects.
    pub fn get_colors(option: u32) -> (colors: Colors)
        ensures
            colors@ == palette(option),
            colors.wf(),
    {
        let colors = match option {
            1 => Colors {
                name: String::from_str("Classic_Contrast"),
                background: Color::new(0, 0, 0),
                layers: vec![Color::new(255, 255, 255)],
            },
            2 => Colors {
                name: String::from_str("Inverted_Classic"),
                background: Color::new(255, 255, 255),
                layers: vec![Color::new(0, 0, 0)],
            },
            3 => Colors {
                name: String::from_str("Gold_Velvet"),
                background: Color::new(63, 63, 116),
                layers: vec![Color::new(255, 188, 66), Color::new(209, 74, 80)],
            },
            4 => Colors {
                name: String::from_str("Earthy_Tones"),
                background: Color::new(85, 98, 112),
                layers: vec![
                    Color::new(255, 193, 87),
                    Color::new(54, 179, 126),
                    Color::new(194, 62, 62),
                ],
            },
            5 => Colors {
                name: String::from_str("Contrast_Harmony"),
                background: Color::new(33, 33, 33),
                layers: vec![Color::new(239, 108, 0), Color::new(181, 181, 181)],
            },
            6 => Colors {
                name: String::from_str("Bold_Neutrals"),
                background: Color::new(64, 64, 64),
                layers: vec![
                    Color::new(255, 145, 0),
                    Color::new(255, 188, 66),
                    Color::new(0, 0, 0),
                ],
            },
            _ => Colors {
                name: String::from_str("Sophisticated_Duo"),
                background: Color::new(48, 63, 159),
                layers: vec![Color::new(244, 143, 177), Color::new(242, 203, 68)],
            },
        };
        assert(colors.layers@ =~= palette(option).layers);
        colors
    }
}

/// The name of every scheme of the table can stand in a file name.
pub proof fn lemma_names_are_safe(option: u32)
    ensures
        is_safe_name(palette(option).name),
{
    reveal_strlit("Classic_Contrast");
    reveal_strlit("Inverted_Classic");
    reveal_strlit("Gold_Velvet");
    reveal_strlit("Earthy_Tones");
    reveal_strlit("Contrast_Harmony");
    reveal_strlit("Bold_Neutrals");
    reveal_strlit("Sophisticated_Duo");
}

/// No two schemes of the table share a name: the name tells the scheme.
pub proof fn lemma_names_are_unique(first: u32, second: u32)
    requires
        palette(first).name == palette(second).name,
    ensures
        palette(first) == palette(second),
{
    reveal_strlit("Classic_Contrast");
    reveal_strlit("Inverted_Classic");
    reveal_strlit("Gold_Velvet");
    reveal_strlit("Earthy_Tones");
    reveal_strlit("Contrast_Harmony");
    reveal_strlit("Bold_Neutrals");
    reveal_strlit("Sophisticated_Duo");
    let a = palette(first).name;
    let b = palette(second).name;
    assert(a[0] == b[0]);
    assert(a[1] == b[1]);
}

/// Every scheme of the table has a layer to paint with.
pub proof fn lemma_palettes_have_layers(option: u32)
    ensures
        palette(option).layers.len() > 0,
{
}

} // verus!
