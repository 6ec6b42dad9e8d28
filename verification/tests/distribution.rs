use oscillator::board::MetricsBoard;
use oscillator::hub::{poll, published_as, Delivery, Hub, Published, HUB_CAPACITY};
use oscillator::models::MarketMetrics;
use oscillator::pipeline::{
    PipelineAction, PipelineEvent, SubscriberAction, SubscriberEvent, PIPELINE_WINDOW, RSI_PERIOD,
};

fn metrics(symbol: &str, price: f64) -> MarketMetrics<f64> {
    MarketMetrics {
        symbol: symbol.to_string(),
        price,
        price_change_percent: 0.0,
        volume: 1.0,
        volume_ratio: 1.0,
        rsi: 50.0,
        volatility: 0.0,
        tempo_bias: 0.0,
        last_updated: 0,
    }
}

#[test]
fn hub_capacity_is_thirty_two() {
    assert_eq!(HUB_CAPACITY, 32);
}

#[test]
fn publish_without_channel_does_nothing() {
    let hub: Hub<u32> = Hub::new();
    assert!(!hub.has_channel("btcusdt"));
    assert_eq!(hub.publish("btcusdt", 1), Published::NoChannel);
}

#[test]
fn publish_without_subscribers_is_no_error() {
    let hub: Hub<u32> = Hub::with_assets(&vec!["btcusdt".to_string(), "AAPL".to_string()]);
    assert!(hub.has_channel("btcusdt"));
    assert!(hub.has_channel("AAPL"));
    assert!(!hub.has_channel("TSLA"));
    assert_eq!(hub.publish("btcusdt", 1), Published::NoSubscribers);
}

#[test]
fn subscribe_creates_the_channel_once() {
    let mut hub: Hub<u32> = Hub::new();
    let _first = hub.subscribe("solusdt");
    assert_eq!(hub.find("solusdt"), Some(0));
    let _second = hub.subscribe("solusdt");
    assert_eq!(hub.find("solusdt"), Some(0));
    assert_eq!(hub.provision("AAPL"), 1);
    assert_eq!(hub.provision("solusdt"), 0);
    assert_eq!(hub.publish("solusdt", 5), Published::Delivered(2));
}

#[test]
fn subscriber_receives_packets_in_publish_order() {
    let mut hub: Hub<u32> = Hub::new();
    let mut subscription = hub.subscribe("X");
    assert_eq!(poll(&mut subscription), (Delivery::Empty, SubscriberAction::Continue));
    for packet in 0..5u32 {
        assert_eq!(hub.publish("X", packet), Published::Delivered(1));
    }
    for packet in 0..5u32 {
        assert_eq!(poll(&mut subscription), (Delivery::Packet(packet), SubscriberAction::Forward));
    }
    assert_eq!(poll(&mut subscription), (Delivery::Empty, SubscriberAction::Continue));
}

#[test]
fn subscriber_sees_only_what_is_published_after_subscribing() {
    let mut hub: Hub<u32> = Hub::new();
    let mut early = hub.subscribe("X");
    assert_eq!(hub.publish("X", 1), Published::Delivered(1));
    let mut late = hub.subscribe("X");
    assert_eq!(hub.publish("X", 2), Published::Delivered(2));
    assert_eq!(poll(&mut early).0, Delivery::Packet(1));
    assert_eq!(poll(&mut late).0, Delivery::Packet(2));
}

#[test]
fn packets_of_other_assets_are_not_delivered() {
    let mut hub: Hub<u32> = Hub::new();
    let mut subscription = hub.subscribe("X");
    let _other = hub.subscribe("Y");
    assert_eq!(hub.publish("Y", 9), Published::Delivered(1));
    assert_eq!(poll(&mut subscription).0, Delivery::Empty);
}

#[test]
fn lagging_subscriber_is_told_and_resumes_live() {
    let mut hub: Hub<u32> = Hub::new();
    let mut subscription = hub.subscribe("X");
    for packet in 0..40u32 {
        assert_eq!(hub.publish("X", packet), Published::Delivered(1));
    }
    let (delivery, action) = poll(&mut subscription);
    let skipped = match delivery {
        Delivery::Lagged(skipped) => skipped,
        other => panic!("expected a lag signal, got {:?}", other),
    };
    assert!(skipped >= 8);
    assert_eq!(action, SubscriberAction::ReportLag(skipped));
    assert_ne!(action, SubscriberAction::End);
    let (delivery, action) = poll(&mut subscription);
    assert_eq!(delivery, Delivery::Packet(skipped as u32));
    assert_eq!(action, SubscriberAction::Forward);
    let mut delivered = 1;
    while let (Delivery::Packet(_), _) = poll(&mut subscription) {
        delivered += 1;
    }
    assert_eq!(delivered + skipped, 40);
}

#[test]
fn dropped_hub_closes_the_subscription() {
    let mut hub: Hub<u32> = Hub::new();
    let mut subscription = hub.subscribe("X");
    drop(hub);
    assert_eq!(poll(&mut subscription), (Delivery::Closed, SubscriberAction::End));
}

#[test]
fn send_outcomes_are_named() {
    assert_eq!(published_as(None), Published::NoSubscribers);
    assert_eq!(published_as(Some(3)), Published::Delivered(3));
}

#[test]
fn deliveries_map_to_actions() {
    assert_eq!(Delivery::Packet(1u8).respond(), SubscriberAction::Forward);
    assert_eq!(Delivery::<u8>::Lagged(8).respond(), SubscriberAction::ReportLag(8));
    assert_eq!(Delivery::<u8>::Empty.respond(), SubscriberAction::Continue);
    assert_eq!(Delivery::<u8>::Closed.respond(), SubscriberAction::End);
}

#[test]
fn subscriber_loop_ends_only_on_disconnect_or_transport_error() {
    assert_eq!(SubscriberEvent::Ping.respond(), SubscriberAction::ReplyPong);
    assert_eq!(SubscriberEvent::Packet.respond(), SubscriberAction::Forward);
    assert_eq!(SubscriberEvent::Lagged(8).respond(), SubscriberAction::ReportLag(8));
    assert_eq!(SubscriberEvent::OtherFrame.respond(), SubscriberAction::Continue);
    assert_eq!(SubscriberEvent::Sent.respond(), SubscriberAction::Continue);
    for event in [
        SubscriberEvent::CloseFrame,
        SubscriberEvent::Disconnected,
        SubscriberEvent::SocketError,
        SubscriberEvent::HubClosed,
        SubscriberEvent::SendFailed,
    ] {
        assert_eq!(event.respond(), SubscriberAction::End);
    }
}

#[test]
fn pipeline_drops_the_packet_of_a_failed_render() {
    assert_eq!(PipelineEvent::TickArrived.respond(), PipelineAction::Process);
    assert_eq!(PipelineEvent::ChunkRendered.respond(), PipelineAction::Publish);
    assert_eq!(PipelineEvent::RenderFailed.respond(), PipelineAction::Skip);
    assert_eq!(PipelineEvent::TransportClosed.respond(), PipelineAction::Terminate);
    assert_eq!(RSI_PERIOD, 14);
    assert_eq!(PIPELINE_WINDOW, 512);
}

#[test]
fn board_reports_unknown_symbols_as_missing() {
    let board: MetricsBoard<f64> = MetricsBoard::new();
    assert!(board.latest_metrics("btcusdt").is_none());
}

#[test]
fn board_keeps_the_latest_snapshot_per_symbol() {
    let mut board: MetricsBoard<f64> = MetricsBoard::new();
    board.update_metrics(metrics("btcusdt", 100.0));
    board.update_metrics(metrics("AAPL", 200.0));
    board.update_metrics(metrics("btcusdt", 101.0));
    let latest = board.latest_metrics("btcusdt").unwrap();
    assert_eq!(latest.symbol, "btcusdt");
    assert_eq!(latest.price, 101.0);
    assert_eq!(board.latest_metrics("AAPL").unwrap().price, 200.0);
    assert!(board.latest_metrics("TSLA").is_none());
}
