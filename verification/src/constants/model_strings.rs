//! The names by which the completion service knows each model.

use vstd::prelude::*;

verus! {

pub const GPT3_5_TURBO: &'static str = "gpt-3.5-turbo";

pub const GPT3_5_TURBO_0613: &'static str = "gpt-3.5-turbo-0613";

pub const GPT3_5_TURBO_16K: &'static str = "gpt-3.5-turbo-16k";

pub const GPT4: &'static str = "gpt-4";

pub const GPT4_0314: &'static str = "gpt-4-0314";

pub const GPT4_0613: &'static str = "gpt-4-0613";

pub const GPT4_32K: &'static str = "gpt-4-32k";

pub const GPT4_32K_0314: &'static str = "gpt-4-32k-0314";

/// Makes the characters of the eight model names known to the verifier.
pub proof fn reveal_model_strings()
    ensures
        GPT3_5_TURBO@ == seq!['g', 'p', 't', '-', '3', '.', '5', '-', 't', 'u', 'r', 'b', 'o'],
        GPT3_5_TURBO_0613@ == GPT3_5_TURBO@ + seq!['-', '0', '6', '1', '3'],
        GPT3_5_TURBO_16K@ == GPT3_5_TURBO@ + seq!['-', '1', '6', 'k'],
        GPT4@ == seq!['g', 'p', 't', '-', '4'],
        GPT4_0314@ == GPT4@ + seq!['-', '0', '3', '1', '4'],
        GPT4_0613@ == GPT4@ + seq!['-', '0', '6', '1', '3'],
        GPT4_32K@ == GPT4@ + seq!['-', '3', '2', 'k'],
        GPT4_32K_0314@ == GPT4_32K@ + seq!['-', '0', '3', '1', '4'],
{
    reveal_strlit("gpt-3.5-turbo");
    reveal_strlit("gpt-3.5-turbo-0613");
    reveal_strlit("gpt-3.5-turbo-16k");
    reveal_strlit("gpt-4");
    reveal_strlit("gpt-4-0314");
    reveal_strlit("gpt-4-0613");
    reveal_strlit("gpt-4-32k");
    reveal_strlit("gpt-4-32k-0314");
    assert(GPT3_5_TURBO@ =~= seq!['g', 'p', 't', '-', '3', '.', '5', '-', 't', 'u', 'r', 'b', 'o']);
    assert(GPT3_5_TURBO_0613@ =~= GPT3_5_TURBO@ + seq!['-', '0', '6', '1', '3']);
    assert(GPT3_5_TURBO_16K@ =~= GPT3_5_TURBO@ + seq!['-', '1', '6', 'k']);
    assert(GPT4@ =~= seq!['g', 'p', 't', '-', '4']);
    assert(GPT4_0314@ =~= GPT4@ + seq!['-', '0', '3', '1', '4']);
    assert(GPT4_0613@ =~= GPT4@ + seq!['-', '0', '6', '1', '3']);
    assert(GPT4_32K@ =~= GPT4@ + seq!['-', '3', '2', 'k']);
    assert(GPT4_32K_0314@ =~= GPT4_32K@ + seq!['-', '0', '3', '1', '4']);
}

} // verus!
