use oscillator::chart::{latest_complete_index, latest_point, ChartEntry, ChartError, QuoteBlock};
use oscillator::endpoints::{chart_url, stream_url, trim_trailing_slashes, BinanceClient};
use oscillator::ingest::{
    PollAction, PollEvent, PollState, StreamAction, StreamEvent, StreamState,
    CONNECTION_TIMEOUT_SECS, DEFAULT_POLL_INTERVAL_SECS, FETCH_BACKOFF_SECS,
    HEARTBEAT_TIMEOUT_SECS, RECONNECT_DELAY_SECS, STREAM_TICK_BUFFER,
};

fn entry(
    timestamp: Vec<i64>,
    close: Vec<Option<f64>>,
    volume: Vec<Option<f64>>,
) -> ChartEntry<f64> {
    ChartEntry { timestamp, quote: vec![QuoteBlock { close, volume }] }
}

#[test]
fn chart_without_result_is_an_error() {
    let result: Vec<ChartEntry<f64>> = vec![];
    assert_eq!(latest_point(&result).unwrap_err(), ChartError::EmptyResult);
    assert_eq!(ChartError::EmptyResult.message(), "empty chart result");
}

#[test]
fn chart_without_quote_block_is_an_error() {
    let result: Vec<ChartEntry<f64>> = vec![ChartEntry { timestamp: vec![1, 2], quote: vec![] }];
    assert_eq!(latest_point(&result).unwrap_err(), ChartError::MissingQuote);
    assert_eq!(ChartError::MissingQuote.message(), "missing quote block");
}

#[test]
fn chart_without_complete_point_is_an_error() {
    let result = vec![entry(vec![1, 2, 3], vec![Some(1.0), None, None], vec![None, Some(5.0), None])];
    assert_eq!(latest_point(&result).unwrap_err(), ChartError::NoDataPoints);
    assert_eq!(ChartError::NoDataPoints.message(), "no data points");
    let empty = vec![entry(vec![], vec![], vec![])];
    assert_eq!(latest_point(&empty).unwrap_err(), ChartError::NoDataPoints);
}

#[test]
fn chart_takes_the_newest_complete_point() {
    let result = vec![entry(
        vec![10, 20, 30, 40],
        vec![Some(1.0), Some(2.0), Some(3.0), None],
        vec![Some(100.0), Some(200.0), None, Some(400.0)],
    )];
    let point = latest_point(&result).unwrap();
    assert_eq!(point.timestamp, 20);
    assert_eq!(point.price, 2.0);
    assert_eq!(point.volume, 200.0);
}

#[test]
fn chart_takes_the_last_point_when_complete() {
    let result = vec![entry(vec![10, 20], vec![Some(1.0), Some(2.0)], vec![Some(3.0), Some(4.0)])];
    let point = latest_point(&result).unwrap();
    assert_eq!(point.timestamp, 20);
    assert_eq!(point.price, 2.0);
    assert_eq!(point.volume, 4.0);
}

#[test]
fn chart_skips_indices_beyond_the_columns() {
    let timestamps = vec![10, 20, 30];
    let close = vec![Some(1.0), Some(2.0)];
    let volume = vec![Some(5.0)];
    assert_eq!(latest_complete_index(&timestamps, &close, &volume), Some(0));
    let none: Vec<Option<f64>> = vec![];
    assert_eq!(latest_complete_index(&timestamps, &close, &none), None);
}

#[test]
fn chart_reads_only_the_first_result() {
    let result = vec![
        entry(vec![10], vec![None], vec![None]),
        entry(vec![20], vec![Some(2.0)], vec![Some(4.0)]),
    ];
    assert_eq!(latest_point(&result).unwrap_err(), ChartError::NoDataPoints);
}

#[test]
fn trade_stream_url_lowercases_the_symbol() {
    let client = BinanceClient::new("wss://stream.binance.com:9443".to_string());
    assert_eq!(client.endpoint(), "wss://stream.binance.com:9443");
    assert_eq!(
        client.trade_stream_url("BTCUSDT"),
        "wss://stream.binance.com:9443/ws/btcusdt@trade"
    );
}

#[test]
fn trade_stream_url_drops_trailing_slashes() {
    let client = BinanceClient::new("wss://host//".to_string());
    assert_eq!(client.trade_stream_url("ethusdt"), "wss://host/ws/ethusdt@trade");
    assert_eq!(stream_url("wss://host/", "solusdt"), "wss://host/ws/solusdt@trade");
}

#[test]
fn trimming_slashes_handles_the_edges() {
    assert_eq!(trim_trailing_slashes(""), "");
    assert_eq!(trim_trailing_slashes("///"), "");
    assert_eq!(trim_trailing_slashes("a/b"), "a/b");
    assert_eq!(trim_trailing_slashes("a/b/"), "a/b");
    assert_eq!(trim_trailing_slashes("é/"), "é");
}

#[test]
fn chart_url_has_the_documented_shape() {
    assert_eq!(
        chart_url("https://query1.finance.yahoo.com", "AAPL"),
        "https://query1.finance.yahoo.com/v8/finance/chart/AAPL?interval=1m&range=1d"
    );
}

#[test]
fn contract_delays_have_their_values() {
    assert_eq!(CONNECTION_TIMEOUT_SECS, 30);
    assert_eq!(HEARTBEAT_TIMEOUT_SECS, 45);
    assert_eq!(RECONNECT_DELAY_SECS, 3);
    assert_eq!(FETCH_BACKOFF_SECS, 5);
    assert_eq!(DEFAULT_POLL_INTERVAL_SECS, 15);
    assert_eq!(STREAM_TICK_BUFFER, 512);
}

#[test]
fn stream_starts_by_connecting() {
    assert_eq!(
        StreamState::start(),
        (StreamState::Connecting, StreamAction::Connect { timeout_secs: 30 })
    );
}

#[test]
fn connect_timeout_is_retried_after_the_fixed_delay() {
    let (state, action) = StreamState::start();
    assert_eq!(action, StreamAction::Connect { timeout_secs: 30 });
    let (state, action) = state.step(StreamEvent::ConnectTimedOut);
    assert_eq!(state, StreamState::BackingOff);
    assert_eq!(action, StreamAction::Sleep { secs: 3 });
    assert_ne!(action, StreamAction::Emit);
    let (state, action) = state.step(StreamEvent::BackoffElapsed);
    assert_eq!(state, StreamState::Connecting);
    assert_eq!(action, StreamAction::Connect { timeout_secs: 30 });
}

#[test]
fn connect_failure_is_retried_after_the_fixed_delay() {
    assert_eq!(
        StreamState::Connecting.step(StreamEvent::ConnectFailed),
        (StreamState::BackingOff, StreamAction::Sleep { secs: 3 })
    );
}

#[test]
fn open_stream_emits_each_trade() {
    let (state, action) = StreamState::Connecting.step(StreamEvent::Connected);
    assert_eq!(state, StreamState::Streaming);
    assert_eq!(action, StreamAction::AwaitMessage { timeout_secs: 45 });
    let (state, action) = state.step(StreamEvent::TradeReceived);
    assert_eq!((state, action), (StreamState::Streaming, StreamAction::Emit));
    let (state, action) = state.step(StreamEvent::TickSent);
    assert_eq!(
        (state, action),
        (StreamState::Streaming, StreamAction::AwaitMessage { timeout_secs: 45 })
    );
    assert_eq!(
        state.step(StreamEvent::FrameIgnored),
        (StreamState::Streaming, StreamAction::AwaitMessage { timeout_secs: 45 })
    );
}

#[test]
fn stalled_or_broken_stream_reconnects() {
    for event in [
        StreamEvent::HeartbeatTimedOut,
        StreamEvent::StreamFailed,
        StreamEvent::StreamEnded,
        StreamEvent::MessageMalformed,
    ] {
        assert_eq!(
            StreamState::Streaming.step(event),
            (StreamState::BackingOff, StreamAction::Sleep { secs: 3 })
        );
    }
}

#[test]
fn closed_sink_stops_the_stream_for_good() {
    for state in [
        StreamState::Connecting,
        StreamState::Streaming,
        StreamState::BackingOff,
        StreamState::Stopped,
    ] {
        assert_eq!(
            state.step(StreamEvent::SinkClosed),
            (StreamState::Stopped, StreamAction::Stop)
        );
    }
    assert_eq!(
        StreamState::Stopped.step(StreamEvent::Connected),
        (StreamState::Stopped, StreamAction::Stop)
    );
    assert_eq!(
        StreamState::Stopped.step(StreamEvent::BackoffElapsed),
        (StreamState::Stopped, StreamAction::Stop)
    );
}

#[test]
fn stray_events_leave_the_stream_state() {
    assert_eq!(
        StreamState::BackingOff.step(StreamEvent::TradeReceived),
        (StreamState::BackingOff, StreamAction::Sleep { secs: 3 })
    );
    assert_eq!(
        StreamState::BackingOff.step(StreamEvent::StreamFailed),
        (StreamState::BackingOff, StreamAction::Sleep { secs: 3 })
    );
    assert_eq!(
        StreamState::Connecting.step(StreamEvent::TradeReceived),
        (StreamState::Connecting, StreamAction::Connect { timeout_secs: 30 })
    );
}

#[test]
fn poller_fetches_once_per_interval() {
    let (state, action) = PollState::start();
    assert_eq!((state, action), (PollState::Waiting, PollAction::AwaitInterval));
    let (state, action) = state.step(PollEvent::IntervalElapsed);
    assert_eq!((state, action), (PollState::Fetching, PollAction::Fetch));
    let (state, action) = state.step(PollEvent::Fetched);
    assert_eq!((state, action), (PollState::Emitting, PollAction::Emit));
    let (state, action) = state.step(PollEvent::TickSent);
    assert_eq!((state, action), (PollState::Waiting, PollAction::AwaitInterval));
}

#[test]
fn failed_fetch_backs_off_then_waits_for_the_timer() {
    let (state, action) = PollState::Fetching.step(PollEvent::FetchFailed);
    assert_eq!((state, action), (PollState::BackingOff, PollAction::Sleep { secs: 5 }));
    let (state, action) = state.step(PollEvent::BackoffElapsed);
    assert_eq!((state, action), (PollState::Waiting, PollAction::AwaitInterval));
}

#[test]
fn closed_sink_stops_the_poller() {
    assert_eq!(
        PollState::Emitting.step(PollEvent::SinkClosed),
        (PollState::Stopped, PollAction::Stop)
    );
    assert_eq!(
        PollState::Stopped.step(PollEvent::IntervalElapsed),
        (PollState::Stopped, PollAction::Stop)
    );
    assert_eq!(PollState::Stopped.action(), PollAction::Stop);
}

#[test]
fn stray_events_leave_the_poller_state() {
    assert_eq!(
        PollState::Waiting.step(PollEvent::Fetched),
        (PollState::Waiting, PollAction::AwaitInterval)
    );
    assert_eq!(
        PollState::BackingOff.step(PollEvent::IntervalElapsed),
        (PollState::BackingOff, PollAction::Sleep { secs: 5 })
    );
}
