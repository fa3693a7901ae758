use esp32_mqtt_blink::config::Config;
use esp32_mqtt_blink::subscriber::{CommandTopic, Subscriber, SUBSCRIBE_RETRY_MS};

#[test]
fn both_topics_in_turn() {
    let mut subscriber = Subscriber::new();
    assert_eq!(subscriber, Subscriber::Subscribe(CommandTopic::Speed));
    subscriber.advance(true);
    assert_eq!(subscriber, Subscriber::Subscribe(CommandTopic::Switch));
    subscriber.advance(true);
    assert_eq!(subscriber, Subscriber::Announce);
    subscriber.advance(true);
    assert_eq!(subscriber, Subscriber::Done);
    subscriber.advance(true);
    assert_eq!(subscriber, Subscriber::Done);
}

#[test]
fn failed_subscriptions_are_retried() {
    let mut subscriber = Subscriber::new();
    for topic in [CommandTopic::Speed, CommandTopic::Switch] {
        for _ in 0..20 {
            assert_eq!(subscriber, Subscriber::Subscribe(topic));
            subscriber.advance(false);
            assert_eq!(subscriber, Subscriber::Wait(topic));
            subscriber.advance(true);
        }
        subscriber.advance(true);
    }
    assert_eq!(subscriber, Subscriber::Announce);
    assert_eq!(SUBSCRIBE_RETRY_MS, 500);
}

#[test]
fn the_announcement_comes_once() {
    let mut subscriber = Subscriber::new();
    let mut announced = 0;
    for step in 0..100 {
        if subscriber == Subscriber::Announce {
            announced += 1;
        }
        subscriber.advance(step % 3 == 0);
    }
    assert_eq!(announced, 1);
}

#[test]
fn topic_names() {
    let config = Config::default();
    assert_eq!(CommandTopic::Speed.name(&config), "esp32/speed_level");
    assert_eq!(CommandTopic::Switch.name(&config), "esp32/switch");
}
