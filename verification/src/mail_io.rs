//! The record of a received message as it is written to a file.

use crate::text::{join, texts_of};
use vstd::prelude::*;
use vstd::string::StringExecFns;

verus! {

/// The record of one message: a heading with the time of receipt, and
/// behind it the lines of the message as they came.
pub open spec fn record_of(time: Seq<char>, datas: Seq<Seq<char>>) -> Seq<char> {
    "---- New Email at "@ + time + " ----"@ + datas.flatten()
}

/// The text to append to the file for a message that was received at
/// `time` with the lines `datas`.
pub fn record_text(time: &str, datas: &Vec<String>) -> (record: String)
    ensures
        record@ == record_of(time@, texts_of(datas@)),
{
    let mut record = String::new();
    record.append("---- New Email at ");
    record.append(time);
    record.append(" ----");
    record.append(join(datas).as_str());
    record
}

} // verus!
