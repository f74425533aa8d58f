//! The remote feed's address: one URL per date, keyed by the date's
//! `YYYY-MM-DD` form.

use vstd::prelude::*;
use vstd::string::*;
use crate::date::{Date, valid_date};
use crate::date_text::{ymd_seq, format_ymd};

verus! {

/// The URL that answers for date `d`.
pub open spec fn feed_url_spec(d: Date) -> Seq<char> {
    "https://www.santodelgiorno.it/santi.json?data="@ + ymd_seq(d)
}

/// Builds the feed URL for `d`.
pub fn feed_url(d: &Date) -> (r: String)
    requires
        valid_date(*d),
    ensures
        r@ == feed_url_spec(*d),
{
    let mut s = String::from_str("https://www.santodelgiorno.it/santi.json?data=");
    let ymd = format_ymd(d);
    s.append(ymd.as_str());
    proof {
        assert(s@ =~= feed_url_spec(*d));
    }
    s
}

} // verus!
