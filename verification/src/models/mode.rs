//! osu! game modes. The rule tree carries a `default_mode`; every per-mode
//! condition target evaluates against the user's stats in that mode.

use crate::text;
use vstd::prelude::*;

verus! {

#[derive(Debug, Clone, Copy, PartialEq, Eq, Structural)]
pub enum Mode {
    /// Standard osu! (circles + sliders + spinners).
    Osu,
    /// osu!taiko (drumming).
    Taiko,
    /// osu!catch / "fruits" (catching falling fruit).
    Fruits,
    /// osu!mania (vertical-scroll key game).
    Mania,
}

impl Default for Mode {
    fn default() -> (r: Self)
        ensures
            r == Mode::Osu,
    {
        Mode::Osu
    }
}

impl Mode {
    /// All four modes in their canonical order.
    pub const ALL: [Mode; 4] = [Mode::Osu, Mode::Taiko, Mode::Fruits, Mode::Mania];

    /// The name under which a rule and a stats row hold this mode.
    pub open spec fn key(self) -> Seq<char> {
        match self {
            Mode::Osu => "osu"@,
            Mode::Taiko => "taiko"@,
            Mode::Fruits => "fruits"@,
            Mode::Mania => "mania"@,
        }
    }

    pub fn as_str(self) -> (r: &'static str)
        ensures
            r@ == self.key(),
    {
        match self {
            Mode::Osu => "osu",
            Mode::Taiko => "taiko",
            Mode::Fruits => "fruits",
            Mode::Mania => "mania",
        }
    }

    /// True when `s` names this mode: its key, or an alias that osu! itself
    /// used to ship.
    pub open spec fn named(self, s: Seq<char>) -> bool {
        ||| s == self.key()
        ||| self is Osu && s == "standard"@
        ||| self is Fruits && (s == "catch"@ || s == "ctb"@)
    }

    /// The mode that `s` stands for, if it names one.
    pub open spec fn of_name(s: Seq<char>) -> Option<Mode> {
        if exists|m: Mode| m.named(s) {
            Some(choose|m: Mode| m.named(s))
        } else {
            None
        }
    }

    pub fn from_key(s: &str) -> (r: Option<Self>)
        ensures
            r == Mode::of_name(s@),
    {
        let r = if text::same(s, "osu") || text::same(s, "standard") {
            Some(Mode::Osu)
        } else if text::same(s, "taiko") {
            Some(Mode::Taiko)
        } else if text::same(s, "fruits") || text::same(s, "catch") || text::same(s, "ctb") {
            Some(Mode::Fruits)
        } else if text::same(s, "mania") {
            Some(Mode::Mania)
        } else {
            None
        };
        proof {
            if let Some(m) = r {
                assert(m.named(s@));
                law_mode_names_are_unambiguous(m, Mode::of_name(s@)->0, s@);
            }
        }
        r
    }

    /// The label that the rule builder shows for this mode.
    pub open spec fn shown_as(self) -> Seq<char> {
        match self {
            Mode::Osu => "osu! (standard)"@,
            Mode::Taiko => "osu!taiko"@,
            Mode::Fruits => "osu!catch"@,
            Mode::Mania => "osu!mania"@,
        }
    }

    /// Human-readable label for the iframe UI.
    pub fn label(self) -> (r: &'static str)
        ensures
            r@ == self.shown_as(),
    {
        match self {
            Mode::Osu => "osu! (standard)",
            Mode::Taiko => "osu!taiko",
            Mode::Fruits => "osu!catch",
            Mode::Mania => "osu!mania",
        }
    }
}

/// The length of a mode's key, and the characters it starts and ends with.
spec fn key_shape(m: Mode) -> (int, char, char) {
    match m {
        Mode::Osu => (3, 'o', 'u'),
        Mode::Taiko => (5, 't', 'o'),
        Mode::Fruits => (6, 'f', 's'),
        Mode::Mania => (5, 'm', 'a'),
    }
}

proof fn lemma_key(m: Mode)
    ensures
        m.key().len() == key_shape(m).0,
        m.key()[0] == key_shape(m).1,
        m.key().last() == key_shape(m).2,
{
    match m {
        Mode::Osu => {
            reveal_strlit("osu");
        },
        Mode::Taiko => {
            reveal_strlit("taiko");
        },
        Mode::Fruits => {
            reveal_strlit("fruits");
        },
        Mode::Mania => {
            reveal_strlit("mania");
        },
    }
}

/// A name stands for at most one mode.
pub proof fn law_mode_names_are_unambiguous(a: Mode, b: Mode, s: Seq<char>)
    requires
        a.named(s),
        b.named(s),
    ensures
        a == b,
{
    lemma_key(a);
    lemma_key(b);
    reveal_strlit("standard");
    reveal_strlit("catch");
    reveal_strlit("ctb");
    assert("standard"@.len() == 8);
    assert("catch"@[0] == 'c');
    assert("ctb"@[0] == 'c');
}

/// Reading back the key of a mode gives that mode.
pub proof fn law_mode_key_round_trip(m: Mode)
    ensures
        Mode::of_name(m.key()) == Some(m),
{
    assert(m.named(m.key()));
    law_mode_names_are_unambiguous(m, Mode::of_name(m.key())->0, m.key());
}

/// The list of all modes holds every mode exactly once.
pub proof fn law_all_modes(m: Mode)
    ensures
        exists|i: int| 0 <= i < Mode::ALL@.len() && Mode::ALL@[i] == m,
        Mode::ALL@.no_duplicates(),
{
    let all = Mode::ALL@;
    assert(all[0] is Osu && all[1] is Taiko && all[2] is Fruits && all[3] is Mania);
}

/// The key of a mode has no space around it.
pub proof fn law_mode_keys_are_trimmed(m: Mode)
    ensures
        text::trimmed(m.key()) == m.key(),
        m.key().len() > 0,
{
    lemma_key(m);
    text::lemma_nothing_to_trim(m.key());
}

/// The names that osu! itself used to ship stand for the modes that have them today.
pub proof fn law_old_names_of_modes()
    ensures
        Mode::of_name("standard"@) == Some(Mode::Osu),
        Mode::of_name("catch"@) == Some(Mode::Fruits),
        Mode::of_name("ctb"@) == Some(Mode::Fruits),
{
    assert(Mode::Osu.named("standard"@));
    assert(Mode::Fruits.named("catch"@));
    assert(Mode::Fruits.named("ctb"@));
    law_mode_names_are_unambiguous(Mode::Osu, Mode::of_name("standard"@)->0, "standard"@);
    law_mode_names_are_unambiguous(Mode::Fruits, Mode::of_name("catch"@)->0, "catch"@);
    law_mode_names_are_unambiguous(Mode::Fruits, Mode::of_name("ctb"@)->0, "ctb"@);
}

/// A label is the name of the game and a name of the mode.
pub proof fn law_labels_name_the_mode(mode: Mode)
    ensures
        mode is Osu ==> mode.shown_as() == "osu! ("@ + "standard"@ + ")"@ && mode.named(
            "standard"@,
        ),
        mode is Fruits ==> mode.shown_as() == "osu!"@ + "catch"@ && mode.named("catch"@),
        mode is Taiko || mode is Mania ==> mode.shown_as() == "osu!"@ + mode.key(),
{
    reveal_strlit("osu! (");
    reveal_strlit("standard");
    reveal_strlit(")");
    reveal_strlit("osu! (standard)");
    reveal_strlit("osu!");
    reveal_strlit("catch");
    reveal_strlit("osu!catch");
    reveal_strlit("taiko");
    reveal_strlit("osu!taiko");
    reveal_strlit("mania");
    reveal_strlit("osu!mania");
    assert("osu! (standard)"@ =~= "osu! ("@ + "standard"@ + ")"@);
    assert("osu!catch"@ =~= "osu!"@ + "catch"@);
    assert("osu!taiko"@ =~= "osu!"@ + "taiko"@);
    assert("osu!mania"@ =~= "osu!"@ + "mania"@);
}

} // verus!
