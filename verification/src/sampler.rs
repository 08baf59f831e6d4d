//! The weighted sampler: a first draw decides whether an item is given at
//! all, a second draw decides which.

use vstd::prelude::*;
use vstd::set_lib::{lemma_int_range, set_int_range};
use rand::Rng;
use crate::error::Error;

verus! {

/// The largest chance, in percent.
pub const MAX_CHANCE: u32 = 100;

/// Whether a draw from `0..=100` lets an item through at `chance` percent.
pub open spec fn admits(chance: u32, draw: int) -> bool {
    draw <= chance
}

/// The draws from `0..=100` that let nothing through at `chance` percent.
pub open spec fn rejected_draws(chance: u32) -> Set<int> {
    Set::new(|draw: int| 0 <= draw <= MAX_CHANCE && !admits(chance, draw))
}

/// Of the 101 draws from `0..=100`, exactly `100 - chance` let nothing
/// through: at 100 percent none does, at 0 percent all but one do.
pub proof fn lemma_rejected_draws(chance: u32)
    requires
        chance <= MAX_CHANCE,
    ensures
        rejected_draws(chance).finite(),
        rejected_draws(chance).len() == MAX_CHANCE - chance,
{
    lemma_int_range(chance + 1, MAX_CHANCE + 1);
    assert(rejected_draws(chance) =~= set_int_range(chance + 1, MAX_CHANCE + 1));
}

/// Draws an integer with `rand::Rng::gen_range` on the thread's generator
/// (`rand::thread_rng`), over the inclusive range from `low` to `high`.
/// Trusted: the draw lies in that range. Which one it is depends on chance.
/// `gen_range` panics on an empty range, which `requires` leaves out.
#[verifier::external_body]
fn draw_between(low: usize, high: usize) -> (drawn: usize)
    requires
        low <= high,
    ensures
        low <= drawn <= high,
{
    rand::thread_rng().gen_range(low..=high)
}

/// Decides from a draw whether an item is let through at `chance` percent.
pub fn chance_admits(chance: u32, draw: usize) -> (admitted: bool)
    ensures
        admitted == admits(chance, draw as int),
{
    draw <= chance as usize
}

/// The item at `index`, if there is one.
pub fn item_at<T>(items: &Vec<T>, index: usize) -> (item: Option<&T>)
    ensures
        index < items.len() ==> item == Some(&items[index as int]),
        index >= items.len() ==> item is None,
{
    if index < items.len() {
        Some(&items[index])
    } else {
        None
    }
}

/// Draws once from `0..=100` and tells whether the draw lets an item through
/// at `chance` percent. A chance above 100 is refused before anything is
/// drawn. At 100 percent every draw lets the item through.
pub fn get_item_chance(chance: u32) -> (admitted: Result<bool, Error>)
    ensures
        chance > MAX_CHANCE <==> admitted is Err,
        admitted is Err ==> admitted == Err::<bool, Error>(Error::InvalidParameter),
        chance == MAX_CHANCE ==> admitted == Ok::<bool, Error>(true),
{
    if chance > MAX_CHANCE {
        return Err(Error::InvalidParameter);
    }
    let draw = draw_between(0, MAX_CHANCE as usize);
    Ok(chance_admits(chance, draw))
}

/// Draws whether an item is given at `chance` percent, and if so, draws
/// which of `items` it is. A chance above 100 is refused. An empty collection
/// gives nothing whatever is drawn; at 100 percent a collection that is not
/// empty always gives one of its items.
pub fn get_random_item<T>(items: &Vec<T>, chance: u32) -> (picked: Result<Option<&T>, Error>)
    ensures
        chance > MAX_CHANCE <==> picked is Err,
        picked is Err ==> picked == Err::<Option<&T>, Error>(Error::InvalidParameter),
        items.len() == 0 && chance <= MAX_CHANCE ==> picked == Ok::<Option<&T>, Error>(None),
        chance == MAX_CHANCE && items.len() > 0 ==> picked is Ok && picked->Ok_0 is Some,
        picked matches Ok(Some(item)) ==> exists|i: int|
            0 <= i < items.len() && #[trigger] items[i] == *item,
{
    let length = items.len();
    let return_item = match get_item_chance(chance) {
        Ok(admitted) => admitted,
        Err(error) => {
            return Err(error);
        },
    };
    if length > 0 && return_item {
        let key = draw_between(0, length - 1);
        return Ok(item_at(items, key));
    }
    Ok(None)
}

} // verus!
