//! The morning before a selling day, and what has to be in place before the
//! day can start.

use vstd::prelude::*;

use crate::error_alert::Alert;
use crate::singletons::game_data::GameDataSingleton;

verus! {

/// The books with a new price.
pub open spec fn priced(game: GameDataSingleton, price: i32) -> GameDataSingleton {
    GameDataSingleton { price, ..game }
}

/// The player asks for the day to start, with `price_input` in the price
/// field.
///
/// With nothing in stock the day does not start and nothing changes. Else the
/// price is written down, whatever it is; the day starts only if it is above
/// zero.
pub fn on_start_day_button_pressed(game: &mut GameDataSingleton, price_input: i32) -> (outcome:
    Result<(), Alert>)
    requires
        old(game).stock > 0 && price_input > 0 ==> i32::MIN <= old(game).cup - old(game).stock,
    ensures
        old(game).stock <= 0 ==> outcome == Err::<(), Alert>(Alert::StockEmpty) && *final(game)
            == *old(game),
        old(game).stock > 0 && price_input <= 0 ==> outcome == Err::<(), Alert>(Alert::NoPrice)
            && *final(game) == priced(*old(game), price_input),
        old(game).stock > 0 && price_input > 0 ==> outcome is Ok && *final(game) == priced(
            *old(game),
            price_input,
        ).day_started(),
{
    if game.stock <= 0 {
        return Err(Alert::StockEmpty);
    }
    game.price = price_input;
    if game.price <= 0 {
        return Err(Alert::NoPrice);
    }
    game.start_day();
    Ok(())
}

} // verus!
