//! Parameter names for query paths.
use vstd::prelude::*;

verus! {

pub const SPLIT_TRANS: &'static str = "trans";

pub const SPLIT_ACCOUNT: &'static str = "account";

pub const SPLIT_VALUE: &'static str = "value";

pub const SPLIT_AMOUNT: &'static str = "amount";

pub const SPLIT_MEMO: &'static str = "memo";

pub const SPLIT_RECONCILE: &'static str = "reconcile-flag";

pub const TRANS_DATE_POSTED: &'static str = "date-posted";

pub const TRANS_DATE_ENTERED: &'static str = "date-entered";

pub const TRANS_DESCRIPTION: &'static str = "desc";

pub const TRANS_NUM: &'static str = "num";

pub const ACCOUNT_NAME: &'static str = "name";

pub const ACCOUNT_CODE: &'static str = "code";

pub const ACCOUNT_TYPE: &'static str = "account-type";

pub const QOF_PARAM_GUID: &'static str = "guid";

} // verus!
