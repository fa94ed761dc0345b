//! The in-world labels over stars and planets, kept in step with the
//! registry's names.
use crate::persistence::{default_planet_name, default_system_name, planet_default_name, system_default_name};
use crate::text::{concat_str, str_eq};
use crate::universe::GridCell;
use vstd::prelude::*;

verus! {

/// The label a body should show once the registry names its system
/// `stored`: the default `S x,y,z` name keeps stars on `S x,y,z` and
/// planets on `P x,y,z`; a custom name is shown as is on stars and with
/// ` (Planet)` on planets, unless the label already shows the custom name.
pub open spec fn wanted_label(stored: Seq<char>, cell: GridCell, is_planet: bool, current: Seq<char>) -> Seq<char> {
    if stored == default_system_name(cell) {
        if is_planet {
            default_planet_name(cell)
        } else {
            default_system_name(cell)
        }
    } else if current == stored {
        current
    } else if is_planet {
        stored + " (Planet)"@
    } else {
        stored
    }
}

/// The new text for a label that shows `current`, in a system the registry
/// names `stored`; `None` when the label already shows what it should.
pub fn label_update(stored: &str, cell: GridCell, is_planet: bool, current: &str) -> (result: Option<String>)
    ensures
        wanted_label(stored@, cell, is_planet, current@) == current@ ==> result is None,
        wanted_label(stored@, cell, is_planet, current@) != current@ ==> (result matches Some(t) && t@
            == wanted_label(stored@, cell, is_planet, current@)),
{
    let default_name = system_default_name(cell);
    if str_eq(stored, default_name.as_str()) {
        if is_planet {
            let planet_name = planet_default_name(cell);
            if !str_eq(current, planet_name.as_str()) {
                Some(planet_name)
            } else {
                None
            }
        } else {
            if !str_eq(current, default_name.as_str()) {
                Some(default_name)
            } else {
                None
            }
        }
    } else {
        if !str_eq(current, stored) {
            if is_planet {
                let planet_name = concat_str(stored, " (Planet)");
                if !str_eq(current, planet_name.as_str()) {
                    Some(planet_name)
                } else {
                    None
                }
            } else {
                Some(stored.to_string())
            }
        } else {
            None
        }
    }
}

/// A label settles after one update: once it shows the wanted text, the
/// next update leaves it as it is.
pub proof fn lemma_label_update_settles(stored: Seq<char>, cell: GridCell, is_planet: bool, current: Seq<char>)
    ensures
        ({
            let once = wanted_label(stored, cell, is_planet, current);
            wanted_label(stored, cell, is_planet, once) == once
        }),
{
    let once = wanted_label(stored, cell, is_planet, current);
    if stored != default_system_name(cell) && current != stored && is_planet {
        assert(once.len() == stored.len() + 9) by {
            reveal_strlit(" (Planet)");
        }
        assert(once != stored);
    }
}

} // verus!
