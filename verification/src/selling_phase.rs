//! The selling day: a clock that runs from opening to closing time, a queue
//! of orders that are served one at a time, and a tally of verdicts.

use vstd::prelude::*;

use crate::customer::{classify, feedback_for, satisfaction_score, Customer};
use crate::customer_feedback::CustomerFeedback;
use crate::labels::{push_char, push_two_digits, two_digits};
use crate::singletons::game_data::GameDataSingleton;
use crate::units::product;

verus! {

/// The clock counts in units of which this many make one minute of the day.
/// One microsecond of frame time, at a time speed and a time multiplier of
/// one thousandth each, moves the clock by one unit.
pub const TICKS_PER_MINUTE: u64 = 1_000_000_000_000;

/// The shop opens at 8:00.
pub const OPENING_TIME: u64 = 480_000_000_000_000;

/// The shop closes at 17:00.
pub const CLOSING_TIME: u64 = 1_020_000_000_000_000;

/// The progress that one cup takes. One microsecond of frame time, at a
/// serving speed of one thousandth, makes one unit of progress.
pub const PROGRESS_PER_CUP: i64 = 1_000_000_000;

/// An order in the queue: who placed it, for how many cups, and how far the
/// work on it has come.
#[derive(Clone, Copy, Debug, PartialEq, Eq, Structural)]
pub struct CustomerOrder {
    pub customer: Customer,
    pub amount: i32,
    pub progress: u64,
}

/// What came of an order that was served: the customer, now leaving, their
/// verdict, and what they paid.
#[derive(Clone, Copy, Debug, PartialEq, Eq, Structural)]
pub struct ServedOrder {
    pub customer: Customer,
    pub feedback: CustomerFeedback,
    pub paid_amount: i32,
}

/// The state of a selling day.
///
/// `current_time` and `end_time` are clock readings; the three speeds are in
/// thousandths. `orders` is served from the front. `has_ended` is set once
/// the day was ended by hand.
#[derive(Debug)]
pub struct SellingPhase {
    pub current_time: u64,
    pub end_time: u64,
    pub is_day_over: bool,
    pub time_speed: u32,
    pub serving_speed: u32,
    pub orders: Vec<CustomerOrder>,
    pub love_count: i32,
    pub like_count: i32,
    pub dislike_count: i32,
    pub time_multiplier: u32,
    pub has_ended: bool,
}

/// A selling day as a mathematical value: the queue is a sequence.
pub struct SellingDay {
    pub current_time: u64,
    pub end_time: u64,
    pub is_day_over: bool,
    pub time_speed: u32,
    pub serving_speed: u32,
    pub orders: Seq<CustomerOrder>,
    pub love_count: i32,
    pub like_count: i32,
    pub dislike_count: i32,
    pub time_multiplier: u32,
    pub has_ended: bool,
}

impl View for SellingPhase {
    type V = SellingDay;

    open spec fn view(&self) -> SellingDay {
        SellingDay {
            current_time: self.current_time,
            end_time: self.end_time,
            is_day_over: self.is_day_over,
            time_speed: self.time_speed,
            serving_speed: self.serving_speed,
            orders: self.orders@,
            love_count: self.love_count,
            like_count: self.like_count,
            dislike_count: self.dislike_count,
            time_multiplier: self.time_multiplier,
            has_ended: self.has_ended,
        }
    }
}

/// An order after `delta` microseconds of work at the given serving speed.
pub open spec fn brewed(order: CustomerOrder, delta: u64, serving_speed: u32) -> CustomerOrder {
    let progress = order.progress + delta * serving_speed;
    CustomerOrder {
        progress: if progress > u64::MAX {
            u64::MAX
        } else {
            progress as u64
        },
        ..order
    }
}

/// Whether the work on an order has reached the cups ordered.
pub open spec fn is_ready(order: CustomerOrder) -> bool {
    order.progress >= order.amount * PROGRESS_PER_CUP
}

impl SellingDay {
    /// A day that has just begun: 8:00 on the clock, closing at 17:00, time
    /// running at five minutes a second, one cup served a second, nobody in
    /// the queue and nothing on the tally.
    pub open spec fn morning() -> SellingDay {
        SellingDay {
            current_time: OPENING_TIME,
            end_time: CLOSING_TIME,
            is_day_over: false,
            time_speed: 1000,
            serving_speed: 1000,
            orders: Seq::empty(),
            love_count: 0,
            like_count: 0,
            dislike_count: 0,
            time_multiplier: 5000,
            has_ended: false,
        }
    }

    /// How far `delta` microseconds of frame time move the clock.
    pub open spec fn clock_step(self, delta: u64) -> int {
        delta * self.time_speed * self.time_multiplier
    }

    /// The day after `delta` microseconds of frame time have gone by. Once
    /// the day is over the clock stands still. A step that reaches closing
    /// time stops there and ends the day.
    pub open spec fn progressed(self, delta: u64) -> SellingDay {
        if self.is_day_over {
            self
        } else if self.current_time + self.clock_step(delta) >= self.end_time {
            SellingDay { current_time: self.end_time, is_day_over: true, ..self }
        } else {
            SellingDay { current_time: (self.current_time + self.clock_step(delta)) as u64, ..self }
        }
    }

    /// The day with one more order at the back of the queue.
    pub open spec fn with_order(self, customer: Customer, amount: i32) -> SellingDay {
        SellingDay {
            orders: self.orders.push(CustomerOrder { customer, amount, progress: 0 }),
            ..self
        }
    }

    /// The day with one more verdict on the tally.
    pub open spec fn tallied(self, feedback: Option<CustomerFeedback>) -> SellingDay {
        match feedback {
            Some(CustomerFeedback::Love) => SellingDay {
                love_count: (self.love_count + 1) as i32,
                ..self
            },
            Some(CustomerFeedback::Like) => SellingDay {
                like_count: (self.like_count + 1) as i32,
                ..self
            },
            Some(CustomerFeedback::Dislike) => SellingDay {
                dislike_count: (self.dislike_count + 1) as i32,
                ..self
            },
            None => self,
        }
    }

    /// Whether every customer in the queue has a taste to judge by.
    pub open spec fn wf(self) -> bool {
        forall|i: int| 0 <= i < self.orders.len() ==> (#[trigger] self.orders[i]).customer.variant is Some
    }

    /// The order at the front of the queue after `delta` microseconds of
    /// work.
    pub open spec fn front_brewed(self, delta: u64) -> CustomerOrder
        recommends
            self.orders.len() > 0,
    {
        brewed(self.orders[0], delta, self.serving_speed)
    }

    /// Whether `delta` microseconds of work complete the order at the front.
    pub open spec fn completes(self, delta: u64) -> bool {
        self.orders.len() > 0 && is_ready(self.front_brewed(delta))
    }

    /// What the customer at the front says of the coffee made to `game`'s
    /// recipe.
    pub open spec fn front_feedback(self, game: GameDataSingleton) -> CustomerFeedback
        recommends
            self.orders.len() > 0,
    {
        feedback_for(game.recipe, self.orders[0].customer.variant->0)
    }

    /// What the order at the front brings in at `game`'s price.
    pub open spec fn front_payment(self, game: GameDataSingleton) -> int
        recommends
            self.orders.len() > 0,
    {
        self.orders[0].amount * game.price
    }

    /// The day after `delta` microseconds of service. With nobody in the
    /// queue nothing changes. Else the work on the front order goes on; once
    /// it is complete, the order leaves the queue and its customer's verdict
    /// goes on the tally.
    pub open spec fn served(self, delta: u64, game: GameDataSingleton) -> SellingDay {
        if self.orders.len() == 0 {
            self
        } else if self.completes(delta) {
            SellingDay { orders: self.orders.drop_first(), ..self }.tallied(
                Some(self.front_feedback(game)),
            )
        } else {
            SellingDay { orders: self.orders.update(0, self.front_brewed(delta)), ..self }
        }
    }

    /// The books after `delta` microseconds of service: they change only
    /// when the front order is completed, by its customer's verdict and by
    /// what the order brings in.
    pub open spec fn books_after_service(self, delta: u64, game: GameDataSingleton) -> GameDataSingleton {
        if self.completes(delta) {
            GameDataSingleton {
                money: (game.money + self.front_payment(game)) as i32,
                ..game.with_feedback(self.front_feedback(game))
            }
        } else {
            game
        }
    }

    /// What `delta` microseconds of service hand out: the served order, if
    /// one was completed.
    pub open spec fn handed_out(self, delta: u64, game: GameDataSingleton) -> Option<ServedOrder> {
        if self.completes(delta) {
            Some(
                ServedOrder {
                    customer: self.orders[0].customer.leaving(),
                    feedback: self.front_feedback(game),
                    paid_amount: self.front_payment(game) as i32,
                },
            )
        } else {
            None
        }
    }

    /// How often a verdict is on the tally.
    pub open spec fn count_of(self, feedback: CustomerFeedback) -> i32 {
        match feedback {
            CustomerFeedback::Love => self.love_count,
            CustomerFeedback::Like => self.like_count,
            CustomerFeedback::Dislike => self.dislike_count,
        }
    }

    /// Whether completing the front order now stays within what the books
    /// and the tally can hold: the payment and the new balance fit the
    /// money, and the verdict's count can grow by one.
    pub open spec fn can_settle(self, game: GameDataSingleton) -> bool {
        &&& self.orders.len() > 0
        &&& i32::MIN <= self.front_payment(game) <= i32::MAX
        &&& i32::MIN <= game.money + self.front_payment(game) <= i32::MAX
        &&& self.count_of(self.front_feedback(game)) < i32::MAX
    }

    /// The day once the player has asked for it to end: it is marked as ended.
    pub open spec fn ended(self) -> SellingDay {
        SellingDay { has_ended: true, ..self }
    }

    /// The books once the player has asked for the day to end. A day that was
    /// ended before leaves them alone.
    pub open spec fn books_after_end(self, game: GameDataSingleton) -> GameDataSingleton {
        if self.has_ended {
            game
        } else {
            books_after_day(game)
        }
    }
}

/// The whole minutes since midnight in a clock reading.
pub open spec fn minutes_of(reading: u64) -> nat {
    (reading / TICKS_PER_MINUTE) as nat
}

/// A clock reading as the label shows it: hours and minutes, two digits
/// each, with a colon between them.
pub open spec fn clock_text(reading: u64) -> Seq<char> {
    two_digits(minutes_of(reading) / 60) + seq![':'] + two_digits(minutes_of(reading) % 60)
}

/// The books at the end of a day: the day counter moves on and what was left
/// in stock is gone.
pub open spec fn books_after_day(game: GameDataSingleton) -> GameDataSingleton {
    GameDataSingleton { day: (game.day + 1) as i32, stock: 0, ..game }
}

impl SellingPhase {
    /// A selling day that has just begun.
    pub fn new() -> (phase: Self)
        ensures
            phase@ == SellingDay::morning(),
    {
        SellingPhase {
            current_time: OPENING_TIME,
            time_speed: 1000,
            end_time: CLOSING_TIME,
            is_day_over: false,
            time_multiplier: 5000,
            serving_speed: 1000,
            orders: Vec::new(),
            love_count: 0,
            like_count: 0,
            dislike_count: 0,
            has_ended: false,
        }
    }

    /// Moves the clock on by `delta` microseconds of frame time. Says
    /// whether the clock was read at all, which it is unless the day was
    /// over already.
    pub fn progress_time(&mut self, delta: u64) -> (read: bool)
        ensures
            final(self)@ == old(self)@.progressed(delta),
            read == !old(self).is_day_over,
            old(self).is_day_over ==> final(self)@ == old(self)@,
            !old(self).is_day_over && old(self).current_time + old(self)@.clock_step(delta)
                >= old(self).end_time ==> final(self).current_time == old(self).end_time
                && final(self).is_day_over,
    {
        if self.is_day_over {
            return false;
        }
        let speed: u128 = self.time_speed as u128;
        let multiplier: u128 = self.time_multiplier as u128;
        assert(delta * speed * multiplier <= 0xffff_ffff_ffff_ffff * 0x1_0000_0000 * 0x1_0000_0000)
            by (nonlinear_arith)
            requires
                0 <= delta <= 0xffff_ffff_ffff_ffff,
                0 <= speed < 0x1_0000_0000,
                0 <= multiplier < 0x1_0000_0000,
        ;
        assert(delta * speed <= 0xffff_ffff_ffff_ffff * 0x1_0000_0000) by (nonlinear_arith)
            requires
                0 <= delta <= 0xffff_ffff_ffff_ffff,
                0 <= speed < 0x1_0000_0000,
        ;
        let step: u128 = delta as u128 * speed * multiplier;
        if self.current_time >= self.end_time || step >= (self.end_time - self.current_time) as u128 {
            self.current_time = self.end_time;
            self.is_day_over = true;
        } else {
            self.current_time = self.current_time + step as u64;
        }
        true
    }

    /// The text for the clock label: the hour and the minute of the current
    /// time.
    pub fn update_clock_label(&self) -> (text: String)
        ensures
            text@ == clock_text(self.current_time),
    {
        let minutes: u64 = self.current_time / TICKS_PER_MINUTE;
        let mut text = String::new();
        push_two_digits(&mut text, minutes / 60);
        push_char(&mut text, ':');
        push_two_digits(&mut text, minutes % 60);
        assert(text@ =~= clock_text(self.current_time));
        text
    }

    /// Takes an order of `amount` cups from `customer`. Where the stock does
    /// not cover it, nothing changes but the customer, who is turned away
    /// and handed back on their way out. Else the cups leave the stock and
    /// the order joins the back of the queue.
    pub fn update_orders(
        &mut self,
        game: &mut GameDataSingleton,
        customer: Customer,
        amount: i32,
    ) -> (rejected: Option<Customer>)
        requires
            old(game).stock - amount <= i32::MAX,
        ensures
            old(game).stock < amount ==> {
                &&& rejected == Some(customer.leaving())
                &&& final(self)@ == old(self)@
                &&& *final(game) == *old(game)
            },
            old(game).stock >= amount ==> {
                &&& rejected is None
                &&& final(self)@ == old(self)@.with_order(customer, amount)
                &&& *final(game) == (GameDataSingleton {
                    stock: (old(game).stock - amount) as i32,
                    ..*old(game)
                })
            },
            old(self)@.wf() && customer.variant is Some ==> final(self)@.wf(),
    {
        if game.stock < amount {
            let mut customer = customer;
            let _ = customer.complete_order(false, game);
            return Some(customer);
        }
        game.stock -= amount;
        self.orders.push(CustomerOrder { customer, amount, progress: 0 });
        None
    }

    /// Whether `delta` microseconds of service can be given: every customer
    /// in the queue has a taste, and if the front order is completed, the
    /// books and the tally can hold what that adds to them.
    pub fn can_serve(&self, delta: u64, game: &GameDataSingleton) -> (ok: bool)
        ensures
            ok == (self@.wf() && (self@.completes(delta) ==> self@.can_settle(*game))),
    {
        let mut i: usize = 0;
        while i < self.orders.len()
            invariant
                i <= self.orders.len(),
                forall|j: int| 0 <= j < i ==> (#[trigger] self.orders@[j]).customer.variant is Some,
            decreases self.orders.len() - i,
        {
            if self.orders[i].customer.variant.is_none() {
                return false;
            }
            i += 1;
        }
        if self.orders.len() == 0 {
            return true;
        }
        let order = self.orders[0];
        let speed: u128 = self.serving_speed as u128;
        assert(delta * speed <= 0xffff_ffff_ffff_ffff * 0x1_0000_0000) by (nonlinear_arith)
            requires
                0 <= delta <= 0xffff_ffff_ffff_ffff,
                0 <= speed < 0x1_0000_0000,
        ;
        let progress: u128 = order.progress as u128 + delta as u128 * speed;
        let reached: u64 = if progress > u64::MAX as u128 {
            u64::MAX
        } else {
            progress as u64
        };
        if (reached as i128) < product(order.amount as i64, PROGRESS_PER_CUP) {
            return true;
        }
        let paid: i128 = product(order.amount as i64, game.price as i64);
        if paid < i32::MIN as i128 || paid > i32::MAX as i128 {
            return false;
        }
        let balance: i128 = game.money as i128 + paid;
        let taste = order.customer.variant.unwrap();
        let count: i32 = match classify(satisfaction_score(&game.recipe, &taste)) {
            CustomerFeedback::Love => self.love_count,
            CustomerFeedback::Like => self.like_count,
            CustomerFeedback::Dislike => self.dislike_count,
        };
        i32::MIN as i128 <= balance && balance <= i32::MAX as i128 && count < i32::MAX
    }

    /// Works for `delta` microseconds on the order at the front of the
    /// queue, and on no other. With nobody in the queue nothing happens.
    /// When the order is complete it leaves the queue: its customer goes
    /// away and passes their verdict, which is tallied and taken into the
    /// favorability, and the price of the cups is added to the money.
    pub fn serve_customer(&mut self, delta: u64, game: &mut GameDataSingleton) -> (served:
        Option<ServedOrder>)
        requires
            old(self)@.wf(),
            old(self)@.completes(delta) ==> old(self)@.can_settle(*old(game)),
        ensures
            final(self)@ == old(self)@.served(delta, *old(game)),
            *final(game) == old(self)@.books_after_service(delta, *old(game)),
            served == old(self)@.handed_out(delta, *old(game)),
            final(self)@.wf(),
            old(self).orders@.len() == 0 ==> {
                &&& served is None
                &&& final(self)@ == old(self)@
                &&& *final(game) == *old(game)
            },
    {
        if self.orders.len() == 0 {
            return None;
        }
        let mut order = self.orders[0];
        let speed: u128 = self.serving_speed as u128;
        assert(delta * speed <= 0xffff_ffff_ffff_ffff * 0x1_0000_0000) by (nonlinear_arith)
            requires
                0 <= delta <= 0xffff_ffff_ffff_ffff,
                0 <= speed < 0x1_0000_0000,
        ;
        let progress: u128 = order.progress as u128 + delta as u128 * speed;
        order.progress = if progress > u64::MAX as u128 {
            u64::MAX
        } else {
            progress as u64
        };
        assert(order == old(self)@.front_brewed(delta));
        if order.progress as i128 >= product(order.amount as i64, PROGRESS_PER_CUP) {
            let feedback = order.customer.complete_order(true, game);
            let paid_amount: i32 = order.amount * game.price;
            let _ = self.orders.remove(0);
            assert(self.orders@ =~= old(self).orders@.drop_first());
            self.increase_counter(feedback);
            let _ = self.getting_paid(paid_amount, game);
            Some(ServedOrder { customer: order.customer, feedback: feedback.unwrap(), paid_amount })
        } else {
            self.orders[0] = order;
            None
        }
    }

    /// Adds what an order brought in to the money, and returns the balance.
    pub fn getting_paid(&mut self, amount: i32, game: &mut GameDataSingleton) -> (balance: i32)
        requires
            i32::MIN <= old(game).money + amount <= i32::MAX,
        ensures
            final(self)@ == old(self)@,
            balance == old(game).money + amount,
            *final(game) == (GameDataSingleton { money: balance, ..*old(game) }),
    {
        game.add_money(amount)
    }

    /// Puts one verdict on the tally; no verdict, no change.
    pub fn increase_counter(&mut self, feedback: Option<CustomerFeedback>)
        requires
            feedback == Some(CustomerFeedback::Love) ==> old(self).love_count < i32::MAX,
            feedback == Some(CustomerFeedback::Like) ==> old(self).like_count < i32::MAX,
            feedback == Some(CustomerFeedback::Dislike) ==> old(self).dislike_count < i32::MAX,
        ensures
            final(self)@ == old(self)@.tallied(feedback),
    {
        match feedback {
            Some(CustomerFeedback::Love) => {
                self.love_count += 1;
            },
            Some(CustomerFeedback::Like) => {
                self.like_count += 1;
            },
            Some(CustomerFeedback::Dislike) => {
                self.dislike_count += 1;
            },
            None => (),
        }
    }

    /// Ends the day by hand: the day counter moves on and the stock is
    /// cleared. Only the first call on a selling day does so, and returns
    /// `true`; any later one changes nothing.
    pub fn end_day(&mut self, game: &mut GameDataSingleton) -> (ended: bool)
        requires
            !old(self).has_ended ==> old(game).day < i32::MAX,
        ensures
            ended == !old(self).has_ended,
            final(self)@ == old(self)@.ended(),
            *final(game) == old(self)@.books_after_end(*old(game)),
            old(self).has_ended ==> final(self)@ == old(self)@ && *final(game) == *old(game),
            !old(self).has_ended ==> final(game).day == old(game).day + 1 && final(game).stock
                == 0,
    {
        if self.has_ended {
            return false;
        }
        game.day += 1;
        game.stock = 0;
        self.has_ended = true;
        true
    }
}

/// Service with nobody in the queue does nothing: the day and the books stay
/// as they are, and no order is handed out.
pub proof fn law_empty_queue_is_idle(day: SellingDay, delta: u64, game: GameDataSingleton)
    requires
        day.orders.len() == 0,
    ensures
        day.served(delta, game) == day,
        day.books_after_service(delta, game) == game,
        day.handed_out(delta, game) is None,
{
}

/// Service touches the money and the tally only when it hands out an order,
/// and then the tally grows by exactly one verdict, that of the order handed
/// out, and the queue loses exactly its front.
pub proof fn law_service_settles_once(day: SellingDay, delta: u64, game: GameDataSingleton)
    requires
        day.completes(delta) ==> day.can_settle(game),
    ensures
        day.handed_out(delta, game) is None ==> {
            &&& day.books_after_service(delta, game) == game
            &&& day.served(delta, game).love_count == day.love_count
            &&& day.served(delta, game).like_count == day.like_count
            &&& day.served(delta, game).dislike_count == day.dislike_count
            &&& day.served(delta, game).orders.len() == day.orders.len()
        },
        day.handed_out(delta, game) matches Some(order) ==> {
            &&& day.served(delta, game).love_count + day.served(delta, game).like_count
                + day.served(delta, game).dislike_count == day.love_count + day.like_count
                + day.dislike_count + 1
            &&& day.served(delta, game).count_of(order.feedback) == day.count_of(order.feedback)
                + 1
            &&& day.books_after_service(delta, game).money == game.money + order.paid_amount
            &&& order.paid_amount == day.orders[0].amount * game.price
            &&& day.served(delta, game).orders.len() == day.orders.len() - 1
            &&& forall|i: int|
                0 <= i < day.orders.len() - 1 ==> day.served(delta, game).orders[i]
                    == day.orders[i + 1]
        },
{
}

/// Ending the day a second time changes nothing: not the day, and not the
/// books, whose day counter has moved on by one and no more.
pub proof fn law_day_ends_once(day: SellingDay, game: GameDataSingleton)
    ensures
        day.ended().ended() == day.ended(),
        day.ended().books_after_end(day.books_after_end(game)) == day.books_after_end(game),
        !day.has_ended ==> day.books_after_end(game).day == (game.day + 1) as i32
            && day.books_after_end(game).stock == 0,
{
}

/// A step that reaches closing time leaves the clock exactly there and ends
/// the day; after that, no step of any length changes anything.
pub proof fn law_clock_stops_at_closing(day: SellingDay, delta: u64, later: u64)
    requires
        !day.is_day_over,
        day.current_time + day.clock_step(delta) >= day.end_time,
    ensures
        day.progressed(delta).current_time == day.end_time,
        day.progressed(delta).is_day_over,
        day.progressed(delta).progressed(later) == day.progressed(delta),
{
}

/// The clock never runs backwards and never passes closing time, and a day
/// that is over stays over. The day is over after a step exactly when it was
/// over before or the step reached closing time.
pub proof fn law_clock_is_bounded(day: SellingDay, delta: u64)
    requires
        day.current_time <= day.end_time,
    ensures
        day.current_time <= day.progressed(delta).current_time <= day.end_time,
        day.progressed(delta).is_day_over == (day.is_day_over || day.current_time
            + day.clock_step(delta) >= day.end_time),
        day.is_day_over ==> day.progressed(delta) == day,
{
    assert(day.clock_step(delta) >= 0) by (nonlinear_arith)
        requires
            day.clock_step(delta) == delta * day.time_speed * day.time_multiplier,
            delta >= 0,
            day.time_speed >= 0,
            day.time_multiplier >= 0,
    ;
}

} // verus!
