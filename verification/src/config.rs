//! Compositor configuration as consumed by the core: keyboard layout
//! settings, named keybindings, and per-output placement overrides that
//! `Clux::map_output` consults in preference to backend-suggested
//! positions. Reading and parsing the configuration file is I/O and
//! happens outside; the core only receives the resulting plain values.

use vstd::prelude::*;

use crate::geometry::Point;

verus! {

/// Scale factors are carried in thousandths, so that a factor of one is
/// `1000` and fractional factors stay exact integers.
pub const SCALE_UNIT_MILLI: u32 = 1000;

/// Keyboard layout configuration handed to the seat's keymap provider.
#[derive(Clone, Debug)]
pub struct KeyboardConfig {
    pub layout: String,
    pub variant: String,
    pub options: Option<String>,
}

impl Default for KeyboardConfig {
    /// The default layout is `us` with no variant and no options.
    fn default() -> (r: Self)
        ensures
            r.layout@ == "us"@,
            r.variant@ == ""@,
            r.options is None,
    {
        proof {
            reveal_strlit("us");
            reveal_strlit("");
        }
        KeyboardConfig { layout: "us".to_owned(), variant: "".to_owned(), options: None }
    }
}

/// A user-defined key combination bound to a command.
#[derive(Clone, Debug)]
pub struct Keybinding {
    pub combo: String,
    pub command: String,
}

/// Placement override for one output, matched by output name.
#[derive(Clone, Debug)]
pub struct OutputConfig {
    pub name: String,
    pub pos: Point,
    /// Scale factor in thousandths; `SCALE_UNIT_MILLI` means unscaled.
    pub scale_milli: u32,
}

/// The whole configuration: keyboard settings, keybindings keyed by
/// name, and output placement overrides.
#[derive(Clone, Debug)]
pub struct CluxConfig {
    pub keyboard: KeyboardConfig,
    pub keybindings: Vec<(String, Keybinding)>,
    pub outputs: Vec<OutputConfig>,
}

impl Default for CluxConfig {
    /// An empty configuration: default keyboard, no bindings, no overrides.
    fn default() -> (r: Self)
        ensures
            r.keyboard.layout@ == "us"@,
            r.keyboard.variant@ == ""@,
            r.keyboard.options is None,
            r.keybindings@.len() == 0,
            r.outputs@.len() == 0,
    {
        CluxConfig {
            keyboard: KeyboardConfig::default(),
            keybindings: Vec::new(),
            outputs: Vec::new(),
        }
    }
}

/// The position override that `outputs` gives for `name`: the position
/// of the first entry whose name matches, if any.
pub open spec fn spec_position_override(outputs: Seq<OutputConfig>, name: Seq<char>) -> Option<
    Point,
>
    decreases outputs.len(),
{
    if outputs.len() == 0 {
        None
    } else if outputs[0].name@ == name {
        Some(outputs[0].pos)
    } else {
        spec_position_override(outputs.drop_first(), name)
    }
}

/// No entry matches `name` exactly when the override is `None`.
pub proof fn lemma_position_override_none(outputs: Seq<OutputConfig>, name: Seq<char>)
    ensures
        spec_position_override(outputs, name) is None <==> forall|i: int|
            0 <= i < outputs.len() ==> outputs[i].name@ != name,
    decreases outputs.len(),
{
    if outputs.len() > 0 {
        lemma_position_override_none(outputs.drop_first(), name);
        if spec_position_override(outputs, name) is None {
            assert forall|i: int| 0 <= i < outputs.len() implies outputs[i].name@ != name by {
                if i >= 1 {
                    assert(outputs.drop_first()[i - 1] == outputs[i]);
                }
            }
        }
        if forall|i: int| 0 <= i < outputs.len() ==> outputs[i].name@ != name {
            assert forall|j: int|
                0 <= j < outputs.drop_first().len() implies outputs.drop_first()[j].name@
                != name by {
                assert(outputs.drop_first()[j] == outputs[j + 1]);
            }
        }
    }
}

impl CluxConfig {
    /// Looks up the configured position override for an output name.
    pub fn position_override(&self, name: &String) -> (r: Option<Point>)
        ensures
            r == spec_position_override(self.outputs@, name@),
    {
        let mut i: usize = 0;
        proof {
            assert(self.outputs@.skip(0) =~= self.outputs@);
        }
        while i < self.outputs.len()
            invariant
                0 <= i <= self.outputs@.len(),
                spec_position_override(self.outputs@, name@) == spec_position_override(
                    self.outputs@.skip(i as int),
                    name@,
                ),
            decreases self.outputs@.len() - i,
        {
            proof {
                assert(self.outputs@.skip(i as int).len() > 0);
                assert(self.outputs@.skip(i as int)[0] == self.outputs@[i as int]);
                assert(self.outputs@.skip(i as int).drop_first() =~= self.outputs@.skip(i + 1));
            }
            if self.outputs[i].name == *name {
                return Some(self.outputs[i].pos);
            }
            i = i + 1;
        }
        proof {
            assert(self.outputs@.skip(i as int) =~= Seq::<OutputConfig>::empty());
        }
        None
    }
}

} // verus!
