//! The admission of a source configuration: what is checked of a kind, an
//! account, a source of an average and a payload before they are written
//! to an entry of the mapping table.

use vstd::prelude::*;
use crate::errors::ScopeError;
use crate::fixed_price::literal_admitted;
use crate::oracle_type::OracleType;
use crate::price::Price;
use crate::routes::{AccountCheck, Admission};
use crate::stores::Pubkey;
use crate::twap::twap_source_admitted;

verus! {

/// What the admission of a kind checked from outside returns for the
/// `verdict` of the check: a refusal is handed on under the kind's name.
pub open spec fn check_outcome(kind: OracleType, verdict: Result<(), u32>) -> Result<
    (),
    ScopeError,
> {
    match verdict {
        Ok(_) => Ok(()),
        Err(code) => Err(ScopeError::SourceFailed { kind, code }),
    }
}

/// What the admission of a configuration returns, where a check of the
/// account answers `verdict`. Each kind looks at what its rule names, and
/// at nothing else.
pub open spec fn admission_outcome(
    kind: OracleType,
    has_account: bool,
    verdict: Result<(), u32>,
    twap_source: u16,
    payload: Seq<u8>,
) -> Result<(), ScopeError> {
    match kind.spec_admission() {
        Some(Admission::Check(_)) => check_outcome(kind, verdict),
        Some(Admission::Unconditional) => Ok(()),
        Some(Admission::TwapSource) => twap_source_admitted(twap_source),
        Some(Admission::Literal) => literal_admitted(has_account, Price::decoded(payload)),
        None => Err(ScopeError::BadTokenType),
    }
}

/// Settles the verdict of an account check made for `price_type`.
pub fn settle_check(price_type: OracleType, verdict: Result<(), u32>) -> (r: Result<
    (),
    ScopeError,
>)
    ensures
        r == check_outcome(price_type, verdict),
{
    match verdict {
        Ok(_) => Ok(()),
        Err(code) => Err(ScopeError::SourceFailed { kind: price_type, code }),
    }
}

/// Decides whether a configuration may be written to a mapping entry: the
/// kind `price_type`, the account `price_account` that its source reads,
/// the source `twap_source` of an average, and the payload `generic_data`.
///
/// `account_check` stands for the checks of an account's shape, which live
/// outside the library and know the account; it is called at most once,
/// with the check that the kind's rule names, and only for a kind whose
/// rule names one. Whether a missing account is a failure is for that check
/// to say.
///
/// A retired kind must not be offered.
pub fn validate_oracle_cfg<C>(
    price_type: OracleType,
    price_account: &Option<Pubkey>,
    account_check: C,
    twap_source: u16,
    generic_data: &[u8; 20],
) -> (r: Result<(), ScopeError>) where C: Fn(AccountCheck) -> Result<(), u32>
    requires
        !price_type.is_deprecated(),
        price_type.spec_admission() matches Some(Admission::Check(check)) ==> call_requires(
            account_check,
            (check,),
        ),
    ensures
        exists|verdict: Result<(), u32>|
            {
                &&& price_type.spec_admission() matches Some(Admission::Check(check))
                    ==> call_ensures(account_check, (check,), verdict)
                &&& r == #[trigger] admission_outcome(
                    price_type,
                    price_account is Some,
                    verdict,
                    twap_source,
                    generic_data@,
                )
            },
{
    let ghost unasked: Result<(), u32> = Ok(());
    match price_type.admission() {
        Admission::Check(check) => {
            let verdict = account_check(check);
            let r = settle_check(price_type, verdict);
            assert(r == admission_outcome(
                price_type,
                price_account is Some,
                verdict,
                twap_source,
                generic_data@,
            ));
            r
        },
        Admission::Unconditional => {
            assert(Ok::<(), ScopeError>(()) == admission_outcome(
                price_type,
                price_account is Some,
                unasked,
                twap_source,
                generic_data@,
            ));
            Ok(())
        },
        Admission::TwapSource => {
            let r = crate::twap::validate_price_account(twap_source);
            assert(r == admission_outcome(
                price_type,
                price_account is Some,
                unasked,
                twap_source,
                generic_data@,
            ));
            r
        },
        Admission::Literal => {
            let r = crate::fixed_price::validate_price_account(
                price_account.is_some(),
                generic_data,
            );
            assert(r == admission_outcome(
                price_type,
                price_account is Some,
                unasked,
                twap_source,
                generic_data@,
            ));
            r
        },
    }
}

} // verus!
