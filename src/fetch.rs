//! Selection of the record that a metadata provider's response carries.

use vstd::prelude::*;

use crate::error::VerifyError;
use crate::record::ContractInfo;
use crate::text::chars_of;

verus! {

/// The provider's status field reports success.
pub open spec fn status_ok(status: Seq<char>) -> bool {
    status == "1"@
}

fn is_status_ok(status: &str) -> (r: bool)
    ensures
        r == status_ok(status@),
{
    proof {
        reveal_strlit("1");
    }
    let cs = chars_of(status);
    if cs.len() == 1 && cs[0] == '1' {
        assert(cs@ =~= "1"@);
        true
    } else {
        false
    }
}

/// Picks the first record of a provider response.
///
/// No record at all is `NotFound`, whatever the status says; records under a failing
/// status are the provider's error, with its message.
pub fn select_record(status: &str, message: &str, result: Vec<ContractInfo>) -> (r: Result<
    ContractInfo,
    VerifyError,
>)
    ensures
        result@.len() == 0 ==> r == Err::<ContractInfo, VerifyError>(VerifyError::NotFound),
        result@.len() > 0 && !status_ok(status@) ==> (r matches Err(
            VerifyError::ProviderError(m),
        ) && m@ == message@),
        result@.len() > 0 && status_ok(status@) ==> r == Ok::<ContractInfo, VerifyError>(
            result@[0],
        ),
{
    let mut result = result;
    if result.len() == 0 {
        return Err(VerifyError::NotFound);
    }
    if !is_status_ok(status) {
        return Err(VerifyError::ProviderError(message.to_owned()));
    }
    Ok(result.swap_remove(0))
}

} // verus!
