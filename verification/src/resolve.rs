//! Resolution of a search: take the first package the search returned, find
//! the bot that hosts it by a linear scan of the bot list, and render the
//! one-line summary.

use vstd::prelude::*;
use vstd::string::StringExecFns;

use crate::decimal::{i32_decimal, signed_decimal_rep};
use crate::model::{AppError, Bot, Package};

verus! {

/// Whether some bot in `bots` carries the id `id`.
pub open spec fn bot_known(bots: Seq<Bot>, id: int) -> bool {
    exists|i: int| 0 <= i < bots.len() && bots[i].id == id
}

/// `b` is the first element of `bots` whose id is `id`.
pub open spec fn is_first_match(bots: Seq<Bot>, id: int, b: Bot) -> bool {
    exists|i: int|
        {
            &&& 0 <= i < bots.len()
            &&& bots[i] == b
            &&& bots[i].id == id
            &&& forall|j: int| 0 <= j < i ==> bots[j].id != id
        }
}

/// Pick the first package of the search results and the first bot whose id
/// equals that package's `bot_id`. An empty result list and a package that
/// references an id absent from `bots` are each fatal, never skipped.
pub fn resolve(bots: &Vec<Bot>, packages: &Vec<Package>) -> (r: Result<(Bot, Package), AppError>)
    ensures
        (r matches Err(e) && e == AppError::NoResults) <==> packages@.len() == 0,
        (r matches Err(e) && e == AppError::UnknownBot) <==> (packages@.len() > 0 && !bot_known(
            bots@,
            packages@[0].bot_id as int,
        )),
        r is Ok <==> (packages@.len() > 0 && bot_known(bots@, packages@[0].bot_id as int)),
        r matches Ok(pair) ==> {
            &&& pair.1 == packages@[0]
            &&& is_first_match(bots@, packages@[0].bot_id as int, pair.0)
        },
{
    if packages.len() == 0 {
        return Err(AppError::NoResults);
    }
    let first: Package = packages[0];
    let n = bots.len();
    let mut k: usize = 0;
    while k < n
        invariant
            n == bots@.len(),
            0 <= k <= n,
            packages@.len() > 0,
            first == packages@[0],
            forall|j: int| 0 <= j < k ==> bots@[j].id != first.bot_id,
        decreases n - k,
    {
        if bots[k].id == first.bot_id {
            let found = bots[k].clone();
            proof {
                assert(bots@[k as int].id == first.bot_id);
                assert(is_first_match(bots@, first.bot_id as int, found));
            }
            return Ok((found, first));
        }
        k += 1;
    }
    Err(AppError::UnknownBot)
}

/// The summary the program prints on success.
pub open spec fn summary_text(name: Seq<char>, number: int) -> Seq<char> {
    "Package: "@ + name + " - "@ + signed_decimal_rep(number)
}

/// Render `Package: {bot name} - {package number}`.
pub fn summary_line(name: &str, number: i32) -> (r: String)
    ensures
        r@ == summary_text(name@, number as int),
{
    let mut s = String::from_str("Package: ");
    s.append(name);
    s.append(" - ");
    s.append(i32_decimal(number).as_str());
    s
}

} // verus!
