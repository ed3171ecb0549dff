use std::sync::mpsc::{channel, sync_channel};

use haggl::brokers::{MailboxRecipient, MarketDataBrokerActor, MarketDataMsg, Subscribe};
use haggl::decimal::Decimal;
use haggl::types::{SpotTrade, Symbol, Taker, Timestamp, Venue};

fn sample_trade() -> SpotTrade {
    SpotTrade {
        venue: Venue::BinanceSpot,
        taker: Taker::Buyer,
        base_sym: Symbol::BTC,
        quote_sym: Symbol::USDT,
        base_qty: Decimal { mantissa: 15, scale: 1 },
        price: Decimal { mantissa: 400, scale: 0 },
        ts: Timestamp { millis: 1_700_000_000_000 },
    }
}

#[test]
fn mailbox_subscription_deduplicates_on_id() {
    let mut broker = MarketDataBrokerActor::default();
    let (tx, rx) = sync_channel(8);
    broker.subscribe_recipient(MailboxRecipient::new(7, tx.clone()));
    broker.subscribe_recipient(MailboxRecipient::new(7, tx.clone()));
    broker.subscribe_recipient(MailboxRecipient::new(7, tx));
    assert_eq!(broker.mailbox_count(), 1);

    let report = broker.handle(MarketDataMsg::SpotTrade(sample_trade()));
    assert_eq!(report.len(), 1);
    assert!(rx.try_recv().is_ok());
    assert!(rx.try_recv().is_err());
}

#[test]
fn mailbox_subscription_distinct_ids_accumulate() {
    let mut broker = MarketDataBrokerActor::default();
    let (tx, _rx) = sync_channel(8);
    broker.subscribe_recipient(MailboxRecipient::new(1, tx.clone()));
    broker.subscribe_recipient(MailboxRecipient::new(2, tx.clone()));
    broker.subscribe_recipient(MailboxRecipient::new(1, tx));
    assert_eq!(broker.mailbox_count(), 2);
}

#[test]
fn subscribe_message_registers_recipient() {
    let mut broker = MarketDataBrokerActor::default();
    let (tx, _rx) = sync_channel(8);
    broker.handle_subscribe(Subscribe(MailboxRecipient::new(3, tx.clone())));
    broker.handle_subscribe(Subscribe(MailboxRecipient::new(3, tx)));
    assert_eq!(broker.mailbox_count(), 1);
}

#[test]
fn queue_subscription_never_deduplicates() {
    let mut broker = MarketDataBrokerActor::default();
    let (tx, rx) = channel();
    broker.subscribe_sender(tx.clone());
    broker.subscribe_sender(tx);
    assert_eq!(broker.sender_count(), 2);

    let report = broker.handle(MarketDataMsg::SpotTrade(sample_trade()));
    assert_eq!(report.len(), 2);
    // The structurally identical endpoints each got one copy.
    assert!(rx.try_recv().is_ok());
    assert!(rx.try_recv().is_ok());
    assert!(rx.try_recv().is_err());
}

#[test]
fn fan_out_reaches_every_subscriber_despite_failures() {
    let mut broker = MarketDataBrokerActor::default();

    // Mailbox 1 is dead: its receiving end is dropped.
    let (dead_tx, dead_rx) = sync_channel(8);
    drop(dead_rx);
    broker.subscribe_recipient(MailboxRecipient::new(1, dead_tx));

    // Mailbox 2 is alive.
    let (live_tx, live_rx) = sync_channel(8);
    broker.subscribe_recipient(MailboxRecipient::new(2, live_tx));

    // Queue 1 is alive; queue 2 is dead.
    let (q1_tx, q1_rx) = channel();
    broker.subscribe_sender(q1_tx);
    let (q2_tx, q2_rx) = channel();
    drop(q2_rx);
    broker.subscribe_sender(q2_tx);

    let report = broker.handle(MarketDataMsg::SpotTrade(sample_trade()));
    // One attempt per subscriber, mailboxes first, in registration order.
    assert_eq!(report, vec![false, true, true, false]);

    // The failures did not affect the others: each live subscriber got
    // exactly one copy.
    assert!(live_rx.try_recv().is_ok());
    assert!(live_rx.try_recv().is_err());
    assert!(q1_rx.try_recv().is_ok());
    assert!(q1_rx.try_recv().is_err());

    // Failed subscribers stay registered.
    assert_eq!(broker.mailbox_count(), 2);
    assert_eq!(broker.sender_count(), 2);
}

#[test]
fn full_mailbox_fails_without_poisoning_the_broker() {
    let mut broker = MarketDataBrokerActor::default();
    // Capacity 1: the second delivery must fail, non-blockingly.
    let (tx, rx) = sync_channel(1);
    broker.subscribe_recipient(MailboxRecipient::new(1, tx));

    let first = broker.handle(MarketDataMsg::SpotTrade(sample_trade()));
    assert_eq!(first, vec![true]);
    let second = broker.handle(MarketDataMsg::SpotTrade(sample_trade()));
    assert_eq!(second, vec![false]);

    assert!(rx.try_recv().is_ok());
    assert!(rx.try_recv().is_err());
}

#[test]
fn publishing_twice_delivers_twice() {
    let mut broker = MarketDataBrokerActor::default();
    let (tx, rx) = channel();
    broker.subscribe_sender(tx);

    let trade = sample_trade();
    broker.handle(MarketDataMsg::SpotTrade(trade));
    broker.handle(MarketDataMsg::SpotTrade(trade));

    // Records carry no identity: the same value arrives once per publish.
    let MarketDataMsg::SpotTrade(first) = rx.try_recv().unwrap();
    let MarketDataMsg::SpotTrade(second) = rx.try_recv().unwrap();
    assert_eq!(first, trade);
    assert_eq!(second, trade);
    assert!(rx.try_recv().is_err());
}

#[test]
fn registry_only_grows() {
    let mut broker = MarketDataBrokerActor::default();
    assert_eq!(broker.mailbox_count(), 0);
    assert_eq!(broker.sender_count(), 0);

    let (tx, _rx) = sync_channel(1);
    drop(_rx);
    broker.subscribe_recipient(MailboxRecipient::new(9, tx));
    let (qtx, qrx) = channel();
    drop(qrx);
    broker.subscribe_sender(qtx);

    // Failed deliveries never remove a subscriber.
    broker.handle(MarketDataMsg::SpotTrade(sample_trade()));
    broker.handle(MarketDataMsg::SpotTrade(sample_trade()));
    assert_eq!(broker.mailbox_count(), 1);
    assert_eq!(broker.sender_count(), 1);
}
