use vstd::prelude::*;
use crate::types::OrderSide;

verus! {

/// Smallest accepted distance between entry and stop: one cent.
pub const MIN_STOP_DISTANCE: i64 = 100;

/// Largest accepted stop distance, as a percentage of the ATR.
pub const MAX_STOP_ATR_PERCENT: i64 = 15;

/// Default stop distance, as a percentage of the ATR.
pub const DEFAULT_STOP_ATR_PERCENT: i64 = 10;

/// The stop lies on the protective side of the entry.
pub open spec fn stop_on_protective_side(entry: int, stop: int, side: OrderSide) -> bool {
    match side {
        OrderSide::Long => stop < entry,
        OrderSide::Short => stop > entry,
    }
}

/// Distance between entry and stop.
pub open spec fn stop_distance(entry: int, stop: int) -> int {
    if entry >= stop { entry - stop } else { stop - entry }
}

/// Whole shares that risk at most `risk` over the given stop distance.
pub open spec fn shares_for(risk: int, distance: int) -> int
    recommends
        distance > 0,
{
    risk / distance
}

/// The stop is on the protective side, at least one cent away, and no
/// further than fifteen percent of the ATR.
pub open spec fn stop_is_valid(entry: int, stop: int, side: OrderSide, atr: int) -> bool {
    &&& stop_on_protective_side(entry, stop, side)
    &&& stop_distance(entry, stop) >= MIN_STOP_DISTANCE
    &&& stop_distance(entry, stop) * 100 <= atr * MAX_STOP_ATR_PERCENT
}

/// Ten percent of the ATR, rounded toward zero.
pub open spec fn default_stop_distance(atr: int) -> int {
    if atr >= 0 {
        atr * DEFAULT_STOP_ATR_PERCENT / 100
    } else {
        -((-atr) * DEFAULT_STOP_ATR_PERCENT / 100)
    }
}

/// The stop at ten percent of the ATR from the entry, on the protective side.
pub open spec fn default_stop(entry: int, side: OrderSide, atr: int) -> int {
    match side {
        OrderSide::Long => entry - default_stop_distance(atr),
        OrderSide::Short => entry + default_stop_distance(atr),
    }
}

fn protective_distance(entry_price: i64, stop_price: i64, side: OrderSide) -> (r: Result<i128, String>)
    ensures
        r is Ok <==> stop_on_protective_side(entry_price as int, stop_price as int, side),
        r matches Ok(d) ==> d == stop_distance(entry_price as int, stop_price as int) && d > 0,
{
    match side {
        OrderSide::Long => {
            if stop_price >= entry_price {
                return Err("For long orders, stop price must be below entry price".to_string());
            }
            Ok(entry_price as i128 - stop_price as i128)
        },
        OrderSide::Short => {
            if stop_price <= entry_price {
                return Err("For short orders, stop price must be above entry price".to_string());
            }
            Ok(stop_price as i128 - entry_price as i128)
        },
    }
}

/// Number of whole shares such that the loss at the stop stays within
/// `risk_per_trade`: `floor(risk / |entry - stop|)`.
///
/// Fails when the stop is not on the protective side of the entry, or
/// when not even one share fits the risk.
pub fn calculate_position_size(
    risk_per_trade: i64,
    entry_price: i64,
    stop_price: i64,
    side: OrderSide,
) -> (r: Result<i64, String>)
    ensures
        r is Ok <==> stop_on_protective_side(entry_price as int, stop_price as int, side)
            && shares_for(risk_per_trade as int, stop_distance(entry_price as int, stop_price as int)) >= 1,
        r matches Ok(shares) ==> shares == shares_for(
            risk_per_trade as int,
            stop_distance(entry_price as int, stop_price as int),
        ),
{
    let distance = match protective_distance(entry_price, stop_price, side) {
        Ok(d) => d,
        Err(e) => {
            return Err(e);
        },
    };
    let risk = risk_per_trade as i128;
    if risk < distance {
        proof {
            if risk >= 0 {
                assert(risk / distance == 0) by (nonlinear_arith)
                    requires 0 <= risk < distance;
            } else {
                assert(risk / distance < 0) by (nonlinear_arith)
                    requires risk < 0, distance > 0;
            }
        }
        return Err("Calculated position size is too small (less than 1 share)".to_string());
    }
    let shares = risk / distance;
    proof {
        assert(1 <= shares <= risk) by (nonlinear_arith)
            requires shares == risk / distance, distance >= 1, risk >= distance;
    }
    Ok(shares as i64)
}

/// Checks that the stop is on the protective side of the entry, at least
/// one cent away, and no further than fifteen percent of `atr`.
pub fn validate_stop_loss(entry_price: i64, stop_price: i64, side: OrderSide, atr: i64) -> (r: Result<(), String>)
    ensures
        r is Ok <==> stop_is_valid(entry_price as int, stop_price as int, side, atr as int),
{
    let distance = match protective_distance(entry_price, stop_price, side) {
        Ok(d) => d,
        Err(e) => {
            return Err(e);
        },
    };
    if distance < MIN_STOP_DISTANCE as i128 {
        return Err("Stop loss too close to entry. Minimum distance is $0.01".to_string());
    }
    let limit: i128 = atr as i128 * 15;
    assert(limit == atr * MAX_STOP_ATR_PERCENT);
    if distance * 100 > limit {
        return Err("Stop loss too far from entry. Maximum distance is 15% of ATR".to_string());
    }
    Ok(())
}

/// The stop ten percent of `atr` away from the entry, below it for a long
/// and above it for a short. The distance is rounded toward zero.
pub fn calculate_default_stop_loss(entry_price: i64, side: OrderSide, atr: i64) -> (r: i64)
    requires
        i64::MIN <= default_stop(entry_price as int, side, atr as int) <= i64::MAX,
    ensures
        r == default_stop(entry_price as int, side, atr as int),
{
    let wide = atr as i128;
    let distance: i128 = if wide >= 0 {
        wide * DEFAULT_STOP_ATR_PERCENT as i128 / 100
    } else {
        -((-wide) * DEFAULT_STOP_ATR_PERCENT as i128 / 100)
    };
    match side {
        OrderSide::Long => (entry_price as i128 - distance) as i64,
        OrderSide::Short => (entry_price as i128 + distance) as i64,
    }
}

} // verus!
