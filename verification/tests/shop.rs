use coffee_shop::error_alert::{Alert, ErrorAlert};
use coffee_shop::prep_phase::on_start_day_button_pressed;
use coffee_shop::shop_tab::{
    ShopTab, COFFEE_PACK, COFFEE_PRICE, CUP_PACK, CUP_PRICE, MILK_PACK, MILK_PRICE, SUGAR_PACK,
    SUGAR_PRICE,
};
use coffee_shop::singletons::game_data::{CoffeeComponent, GameDataSingleton};

fn new_game() -> GameDataSingleton {
    let mut game = GameDataSingleton::new();
    game.start_new();
    game
}

#[test]
fn prices_and_pack_sizes() {
    assert_eq!((COFFEE_PRICE, MILK_PRICE, SUGAR_PRICE, CUP_PRICE), (120, 30, 20, 50));
    assert_eq!((COFFEE_PACK, MILK_PACK, SUGAR_PACK, CUP_PACK), (300, 1000, 1000, 50));
}

#[test]
fn a_new_form_asks_for_nothing() {
    let form = ShopTab::new();
    assert_eq!(
        form,
        ShopTab { coffee_input: 0, milk_input: 0, sugar_input: 0, cup_input: 0, money_label: 0 }
    );
}

#[test]
fn the_label_shows_the_price_of_the_whole_packs() {
    let mut form = ShopTab::new();
    form.coffee_input = 2_000;
    form.milk_input = 1_000;
    form.sugar_input = 3_000;
    form.cup_input = 1;
    form.on_change_buy_amount();
    assert_eq!(form.money_label, 240 + 30 + 60 + 50);

    // fractions of a pack are not charged
    form.coffee_input = 2_999;
    form.milk_input = 999;
    form.sugar_input = 0;
    form.cup_input = 0;
    form.on_change_buy_amount();
    assert_eq!(form.money_label, 240);
    assert_eq!(form.coffee_input, 2_999);
    assert_eq!(form.milk_input, 999);
}

#[test]
fn packs_below_zero_are_struck_out() {
    let mut form = ShopTab {
        coffee_input: -1_000,
        milk_input: -2_500,
        sugar_input: -1_001,
        cup_input: -1,
        money_label: 7,
    };
    form.sanitize_input();
    assert_eq!(
        form,
        ShopTab { coffee_input: 0, milk_input: 0, sugar_input: 0, cup_input: 0, money_label: 7 }
    );

    let mut form = ShopTab {
        coffee_input: 1_000,
        milk_input: 0,
        sugar_input: 2_500,
        cup_input: 3,
        money_label: 7,
    };
    let before = form;
    form.sanitize_input();
    assert_eq!(form, before);
}

#[test]
fn a_fraction_below_zero_is_no_whole_pack_and_stays() {
    let mut form = ShopTab {
        coffee_input: -999,
        milk_input: -1,
        sugar_input: -500,
        cup_input: 0,
        money_label: 0,
    };
    let before = form;
    form.sanitize_input();
    assert_eq!(form, before);
    form.on_change_buy_amount();
    assert_eq!(form.money_label, 0);
    assert_eq!(form.coffee_input, -999);
}

#[test]
fn a_change_cleans_the_form_before_it_adds_up() {
    let mut form = ShopTab {
        coffee_input: -3_000,
        milk_input: 2_000,
        sugar_input: -1_000,
        cup_input: -4,
        money_label: 999,
    };
    form.on_change_buy_amount();
    assert_eq!(
        form,
        ShopTab { coffee_input: 0, milk_input: 2_000, sugar_input: 0, cup_input: 0, money_label: 60 }
    );
}

#[test]
fn a_purchase_is_charged_and_delivered() {
    let mut game = new_game();
    let mut form = ShopTab::new();
    form.coffee_input = 1_000;
    form.milk_input = 2_000;
    form.sugar_input = 1_000;
    form.cup_input = 1;
    form.on_change_buy_amount();
    assert_eq!(form.money_label, 250);
    assert_eq!(form.on_buy(&mut game), Ok(()));
    assert_eq!(game.money, 50);
    assert_eq!(
        game.inventory,
        CoffeeComponent { coffee: 600_000, milk: 3_000_000, sugar: 2_000_000 }
    );
    assert_eq!(game.cup, 100);
    assert_eq!(game.day, 1);
    assert_eq!(game.stock, 0);
    assert_eq!(game.price, 8);
    assert_eq!(game.favorability, 500);
    assert_eq!(form, ShopTab::new());
}

#[test]
fn fractions_of_a_pack_are_delivered_too() {
    let mut game = new_game();
    let mut form = ShopTab::new();
    form.coffee_input = 1_500;
    form.milk_input = 250;
    form.sugar_input = -500;
    form.on_change_buy_amount();
    assert_eq!(form.money_label, 120);
    assert_eq!(form.on_buy(&mut game), Ok(()));
    assert_eq!(game.money, 180);
    assert_eq!(
        game.inventory,
        CoffeeComponent { coffee: 750_000, milk: 1_250_000, sugar: 500_000 }
    );
    assert_eq!(game.cup, 50);
}

#[test]
fn a_purchase_for_all_the_money_goes_through() {
    let mut game = new_game();
    let mut form = ShopTab::new();
    form.cup_input = 6;
    form.on_change_buy_amount();
    assert_eq!(form.money_label, 300);
    assert_eq!(form.on_buy(&mut game), Ok(()));
    assert_eq!(game.money, 0);
    assert_eq!(game.cup, 350);
}

#[test]
fn a_purchase_beyond_the_money_is_refused() {
    let mut game = new_game();
    let before = game;
    let mut form = ShopTab::new();
    form.coffee_input = 2_000;
    form.milk_input = 1_000;
    form.cup_input = 1;
    form.on_change_buy_amount();
    assert_eq!(form.money_label, 320);
    let asked = form;
    assert_eq!(form.on_buy(&mut game), Err(Alert::NotEnoughMoney));
    assert_eq!(game, before);
    assert_eq!(form, asked);

    form.money_label = 301;
    assert_eq!(form.on_buy(&mut game), Err(Alert::NotEnoughMoney));
    assert_eq!(game, before);
}

#[test]
fn deliveries_stop_at_the_end_of_the_range() {
    let mut game = new_game();
    game.inventory.coffee = i64::MAX - 5;
    let mut form = ShopTab::new();
    form.coffee_input = i64::MAX;
    form.milk_input = i64::MIN;
    assert_eq!(form.on_buy(&mut game), Ok(()));
    assert_eq!(game.inventory.coffee, i64::MAX);
    assert_eq!(game.inventory.milk, i64::MIN + 1_000_000);
}

#[test]
fn the_day_does_not_start_on_an_empty_stock() {
    let mut game = new_game();
    let before = game;
    assert_eq!(on_start_day_button_pressed(&mut game, 8), Err(Alert::StockEmpty));
    assert_eq!(game, before);
    game.stock = -1;
    let before = game;
    assert_eq!(on_start_day_button_pressed(&mut game, 10), Err(Alert::StockEmpty));
    assert_eq!(game, before);
}

#[test]
fn the_day_does_not_start_without_a_price() {
    let mut game = new_game();
    game.save_recipe(7_000, 120_000, 10_000);
    let before = game;
    assert_eq!(on_start_day_button_pressed(&mut game, 0), Err(Alert::NoPrice));
    assert_eq!(game.price, 0);
    assert_eq!(game.cup, before.cup);
    assert_eq!(game.inventory, before.inventory);
    assert_eq!(game.stock, 8);
    assert_eq!(on_start_day_button_pressed(&mut game, -3), Err(Alert::NoPrice));
    assert_eq!(game.price, -3);
    assert_eq!(game.cup, 50);
}

#[test]
fn the_day_starts_with_stock_and_price() {
    let mut game = new_game();
    game.save_recipe(7_000, 120_000, 10_000);
    assert_eq!(on_start_day_button_pressed(&mut game, 10), Ok(()));
    assert_eq!(game.price, 10);
    assert_eq!(game.cup, 42);
    assert_eq!(game.stock, 8);
    assert_eq!(game.day, 1);
    assert_eq!(
        game.inventory,
        CoffeeComponent { coffee: 293_000, milk: 880_000, sugar: 990_000 }
    );
}

#[test]
fn each_alert_has_its_sentence() {
    assert_eq!(Alert::StockEmpty.message(), "Stock are empty please make coffee first");
    assert_eq!(Alert::NoPrice.message(), "Put a price on your coffee");
    assert_eq!(Alert::NotEnoughMoney.message(), "Not enough money");
}

#[test]
fn the_alert_box_goes_up_and_down() {
    let mut alert = ErrorAlert::new();
    assert!(!alert.visible);
    assert_eq!(alert.message, "");
    alert.show_alert(Alert::NotEnoughMoney.message());
    assert!(alert.visible);
    assert_eq!(alert.message, "Not enough money");
    alert.close_alert();
    assert!(!alert.visible);
    assert_eq!(alert.message, "Not enough money");
}

#[test]
fn a_total_that_the_label_cannot_show() {
    let mut form = ShopTab::new();
    assert!(form.fits_label());
    form.coffee_input = 17_895_697_000;
    assert!(form.fits_label());
    form.on_change_buy_amount();
    assert_eq!(form.money_label, 2_147_483_640);
    form.coffee_input = 17_895_698_000;
    assert!(!form.fits_label());
    // what is struck out costs nothing
    form.coffee_input = i64::MIN;
    assert!(form.fits_label());
    form.coffee_input = 17_895_697_000;
    form.cup_input = 1;
    assert!(!form.fits_label());
    form.cup_input = i32::MAX;
    form.coffee_input = 0;
    assert!(!form.fits_label());
}

#[test]
fn a_delivery_that_the_books_cannot_hold() {
    let mut game = new_game();
    let mut form = ShopTab::new();
    assert!(form.fits_books(&game));
    // 50 cups are owned: 42 949 671 packs more make 2 147 483 600
    form.cup_input = 42_949_671;
    assert!(form.fits_books(&game));
    form.cup_input = 42_949_672;
    assert!(!form.fits_books(&game));
    // a purchase that is refused delivers nothing
    form.money_label = 301;
    assert!(form.fits_books(&game));
    form.cup_input = 0;
    form.money_label = -5;
    assert!(form.fits_books(&game));
    game.money = i32::MAX;
    assert!(!form.fits_books(&game));
}
