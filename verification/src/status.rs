//! The numeric lifecycle stage of an order, and its display labels.
use vstd::prelude::*;
use vstd::string::StringExecFns;

use crate::strutil::{dec_str, dec_str_signed, push_dec, push_dec_signed};

verus! {

/// An opaque, source-defined status code carried by every event.
#[derive(Debug, Clone, Copy, PartialEq, Eq, Structural)]
pub enum OrderStage {
    Code(u8),
}

/// The label of a stage: `Code` followed by the decimal code.
pub open spec fn stage_label_spec(stage: OrderStage) -> Seq<char> {
    match stage {
        OrderStage::Code(c) => "Code"@ + dec_str(c as int),
    }
}

impl OrderStage {
    pub fn from_code(code: u8) -> (r: Self)
        ensures
            r == OrderStage::Code(code),
    {
        OrderStage::Code(code)
    }

    pub fn label(&self) -> (r: String)
        ensures
            r@ == stage_label_spec(*self),
    {
        match self {
            OrderStage::Code(c) => {
                let mut out = String::from_str("Code");
                push_dec(*c as u64, &mut out);
                out
            },
        }
    }
}

/// The display label of a database status code: a fixed phrase for the
/// known codes, `Code` followed by the decimal code for the rest.
pub open spec fn map_status_spec(code: int) -> Seq<char> {
    if code == 1 {
        "Đang chờ xử lý"@
    } else if code == 2 {
        "Người mua đã thanh toán"@
    } else if code == 4 || code == 6 {
        "Đã hoàn thành"@
    } else if code == 5 {
        "Đã hủy"@
    } else {
        "Code"@ + dec_str_signed(code)
    }
}

pub fn map_status(code: i64) -> (r: String)
    ensures
        r@ == map_status_spec(code as int),
{
    if code == 1 {
        String::from_str("Đang chờ xử lý")
    } else if code == 2 {
        String::from_str("Người mua đã thanh toán")
    } else if code == 4 || code == 6 {
        String::from_str("Đã hoàn thành")
    } else if code == 5 {
        String::from_str("Đã hủy")
    } else {
        let mut out = String::from_str("Code");
        push_dec_signed(code, &mut out);
        out
    }
}

} // verus!
