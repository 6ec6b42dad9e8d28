use oscillator::indicators::IndicatorCalculator;
use oscillator::models::{DerivedIndicators, PriceTick};
use oscillator::window::RollingWindow;

fn tick(price: f64, volume: f64, timestamp: i64) -> PriceTick<f64> {
    PriceTick { symbol: "X".to_string(), price, volume, timestamp }
}

fn feed(calculator: &mut IndicatorCalculator<f64>, price: f64, volume: f64) {
    let tick_return = calculator
        .last_price()
        .map(|previous| ((price / previous) - 1.0).clamp(-1.0, 1.0));
    calculator.on_tick(&tick(price, volume, 0), tick_return);
}

fn rsi_of(window: Option<Vec<f64>>) -> f64 {
    let prices = match window {
        Some(prices) => prices,
        None => return 50.0,
    };
    let mut gains = 0.0;
    let mut losses = 0.0;
    for pair in prices.windows(2) {
        let change = pair[1] - pair[0];
        if change > 0.0 {
            gains += change;
        } else {
            losses -= change;
        }
    }
    let losses = f64::max(losses, 1e-9);
    100.0 - (100.0 / (1.0 + gains / losses))
}

#[test]
fn window_keeps_everything_below_capacity() {
    let mut window: RollingWindow<u32> = RollingWindow::new(4);
    assert!(window.is_empty());
    window.push(1);
    window.push(2);
    window.push(3);
    assert_eq!(window.len(), 3);
    assert_eq!(window.to_vec(), vec![1, 2, 3]);
    assert_eq!(window.capacity(), 4);
}

#[test]
fn window_evicts_oldest_when_full() {
    let mut window: RollingWindow<u32> = RollingWindow::new(3);
    for value in 1..=10u32 {
        window.push(value);
        assert!(window.len() <= 3);
        assert_eq!(window.len(), std::cmp::min(value as usize, 3));
    }
    assert_eq!(window.to_vec(), vec![8, 9, 10]);
    assert_eq!(window.back(), Some(&10));
    assert_eq!(window.get(0), Some(&8));
    assert_eq!(window.get(3), None);
}

#[test]
fn window_of_capacity_one_holds_the_last_value() {
    let mut window: RollingWindow<u32> = RollingWindow::new(1);
    window.push(7);
    window.push(9);
    assert_eq!(window.to_vec(), vec![9]);
}

#[test]
fn window_of_capacity_zero_stays_empty() {
    let mut window: RollingWindow<u32> = RollingWindow::new(0);
    window.push(7);
    window.push(9);
    assert_eq!(window.len(), 0);
    assert!(window.is_empty());
    assert_eq!(window.back(), None);
    assert_eq!(window.to_vec(), Vec::<u32>::new());
}

#[test]
fn newest_samples_are_the_tail() {
    let mut window: RollingWindow<u32> = RollingWindow::new(5);
    for value in 1..=5u32 {
        window.push(value);
    }
    assert_eq!(window.newest_samples(2), vec![4, 5]);
    assert_eq!(window.newest_samples(5), vec![1, 2, 3, 4, 5]);
    assert_eq!(window.newest_samples(9), vec![1, 2, 3, 4, 5]);
    assert_eq!(window.newest_samples(0), Vec::<u32>::new());
}

#[test]
fn fresh_calculator_is_empty() {
    let calculator: IndicatorCalculator<f64> = IndicatorCalculator::new("X".to_string(), 14, 512);
    assert_eq!(calculator.symbol(), "X");
    assert_eq!(calculator.period(), 14);
    assert_eq!(calculator.max_samples(), 512);
    assert_eq!(calculator.last_price(), None);
    assert_eq!(calculator.open_price(), None);
    assert!(calculator.prices().is_empty());
    assert!(calculator.volumes().is_empty());
    assert!(calculator.tick_returns().is_empty());
    assert_eq!(calculator.rsi_window(), None);
}

#[test]
fn default_calculator_has_the_documented_settings() {
    let calculator: IndicatorCalculator<f64> = IndicatorCalculator::default();
    assert_eq!(calculator.symbol(), "UNKNOWN");
    assert_eq!(calculator.period(), 14);
    assert_eq!(calculator.max_samples(), 256);
}

#[test]
fn first_tick_sets_open_and_records_no_return() {
    let mut calculator: IndicatorCalculator<f64> =
        IndicatorCalculator::new("X".to_string(), 14, 512);
    calculator.on_tick(&tick(100.0, 10.0, 1), Some(0.25));
    assert_eq!(calculator.open_price(), Some(100.0));
    assert_eq!(calculator.last_price(), Some(100.0));
    assert_eq!(calculator.prices(), vec![100.0]);
    assert_eq!(calculator.volumes(), vec![10.0]);
    assert!(calculator.tick_returns().is_empty());
}

#[test]
fn open_price_is_never_replaced() {
    let mut calculator: IndicatorCalculator<f64> =
        IndicatorCalculator::new("X".to_string(), 14, 512);
    feed(&mut calculator, 100.0, 10.0);
    feed(&mut calculator, 105.0, 12.0);
    feed(&mut calculator, 90.0, 8.0);
    assert_eq!(calculator.open_price(), Some(100.0));
    assert_eq!(calculator.last_price(), Some(90.0));
    assert_eq!(calculator.tick_returns().len(), 2);
    assert_eq!(calculator.tick_returns()[0], (105.0 / 100.0) - 1.0);
}

#[test]
fn a_tick_without_return_leaves_the_returns_alone() {
    let mut calculator: IndicatorCalculator<f64> =
        IndicatorCalculator::new("X".to_string(), 14, 512);
    feed(&mut calculator, 100.0, 10.0);
    calculator.on_tick(&tick(101.0, 11.0, 2), None);
    assert!(calculator.tick_returns().is_empty());
    assert_eq!(calculator.prices(), vec![100.0, 101.0]);
}

#[test]
fn calculator_windows_never_exceed_their_limit() {
    let mut calculator: IndicatorCalculator<f64> = IndicatorCalculator::new("X".to_string(), 2, 4);
    for step in 0..20 {
        feed(&mut calculator, 100.0 + step as f64, 1.0 + step as f64);
        assert!(calculator.prices().len() <= 4);
        assert!(calculator.volumes().len() <= 4);
        assert!(calculator.tick_returns().len() <= 4);
    }
    assert_eq!(calculator.prices(), vec![116.0, 117.0, 118.0, 119.0]);
    assert_eq!(calculator.volumes(), vec![17.0, 18.0, 19.0, 20.0]);
    assert_eq!(calculator.rsi_window(), Some(vec![117.0, 118.0, 119.0]));
}

#[test]
fn rsi_window_opens_with_period_plus_one_samples() {
    let prices = [
        100.0, 105.0, 103.0, 106.0, 108.0, 107.0, 104.0, 109.0, 111.0, 110.0, 108.0, 112.0,
        115.0, 113.0, 102.0,
    ];
    let volumes = [
        10.0, 12.0, 11.0, 9.0, 13.0, 10.0, 8.0, 14.0, 12.0, 11.0, 10.0, 15.0, 13.0, 12.0, 9.0,
    ];
    let mut calculator: IndicatorCalculator<f64> =
        IndicatorCalculator::new("X".to_string(), 14, 512);
    for index in 0..14 {
        feed(&mut calculator, prices[index], volumes[index]);
        assert_eq!(calculator.rsi_window(), None);
        assert_eq!(rsi_of(calculator.rsi_window()), 50.0);
    }
    feed(&mut calculator, prices[14], volumes[14]);
    let window = calculator.rsi_window();
    assert_eq!(window, Some(prices.to_vec()));
    let rsi = rsi_of(window);
    assert!(rsi.is_finite());
    assert!((0.0..=100.0).contains(&rsi));
    assert_ne!(rsi, 50.0);
}

#[test]
fn rsi_window_stays_shut_when_windows_are_too_small() {
    let mut calculator: IndicatorCalculator<f64> = IndicatorCalculator::new("X".to_string(), 14, 8);
    for step in 0..40 {
        feed(&mut calculator, 100.0 + step as f64, 1.0);
    }
    assert_eq!(calculator.rsi_window(), None);
}

#[test]
fn rsi_window_with_the_largest_period_is_shut() {
    let mut calculator: IndicatorCalculator<f64> =
        IndicatorCalculator::new("X".to_string(), usize::MAX, 8);
    feed(&mut calculator, 100.0, 1.0);
    assert_eq!(calculator.rsi_window(), None);
}

#[test]
fn snapshot_carries_symbol_tick_and_derived_values() {
    let mut calculator: IndicatorCalculator<f64> =
        IndicatorCalculator::new("X".to_string(), 14, 512);
    let observed = PriceTick { symbol: "other".to_string(), price: 100.0, volume: 10.0, timestamp: 1234 };
    calculator.on_tick(&observed, None);
    let derived = DerivedIndicators {
        price_change_percent: 0.0,
        volume_ratio: 1.0,
        rsi: 50.0,
        volatility: 0.0,
        tempo_bias: 0.0,
    };
    let metrics = calculator.snapshot(&observed, derived);
    assert_eq!(metrics.symbol, "X");
    assert_eq!(metrics.price, 100.0);
    assert_eq!(metrics.volume, 10.0);
    assert_eq!(metrics.last_updated, 1234);
    assert_eq!(metrics.rsi, 50.0);
    assert_eq!(metrics.volume_ratio, 1.0);
    assert_eq!(metrics.volatility, 0.0);
    assert_eq!(metrics.tempo_bias, 0.0);
    assert_eq!(metrics.price_change_percent, 0.0);
}

#[test]
fn pushing_many_keeps_the_newest() {
    let mut window: RollingWindow<u32> = RollingWindow::new(3);
    window.push(1);
    window.push_all(&vec![2, 3, 4, 5]);
    assert_eq!(window.to_vec(), vec![3, 4, 5]);
    window.push_all(&vec![]);
    assert_eq!(window.to_vec(), vec![3, 4, 5]);
    let mut roomy: RollingWindow<u32> = RollingWindow::new(8);
    roomy.push_all(&vec![1, 2, 3]);
    assert_eq!(roomy.to_vec(), vec![1, 2, 3]);
}
