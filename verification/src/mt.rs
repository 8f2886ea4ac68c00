//! Token-id glue for the translation model.

use vstd::prelude::*;

verus! {

/// The translation-model input id for a SentencePiece raw id: the raw id
/// plus one, except for the raw ids 1 to 3, whose special-case table is not
/// defined here (no id), and for the largest `u32`, whose successor does not
/// fit (no id).
pub open spec fn spec_nllb_id(sp_id: u32) -> Option<u32> {
    if 1 <= sp_id && sp_id <= 3 || sp_id == u32::MAX {
        None
    } else {
        Some((sp_id + 1) as u32)
    }
}

/// SentencePiece raw id to translation-model input id: shifted by one,
/// except for the special-cased raw ids 1 to 3, which get no id because their
/// exact remap is not defined yet.
pub fn sentencepiece_id_to_nllb_id(sp_id: u32) -> (id: Option<u32>)
    ensures
        id == spec_nllb_id(sp_id),
        (sp_id == 0 || 3 < sp_id < u32::MAX) ==> id == Some((sp_id + 1) as u32),
        1 <= sp_id <= 3 ==> id is None,
{
    if (1 <= sp_id && sp_id <= 3) || sp_id == u32::MAX {
        None
    } else {
        Some(sp_id + 1)
    }
}

/// The remap is reversible: two different raw ids never get the same model
/// id.
pub proof fn lemma_nllb_id_is_injective(a: u32, b: u32)
    requires
        a != b,
        spec_nllb_id(a) is Some,
    ensures
        spec_nllb_id(a) != spec_nllb_id(b),
{
}

} // verus!
