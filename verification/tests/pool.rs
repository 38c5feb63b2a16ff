use syslog_hv::config::{ConfigError, Options};
use syslog_hv::pool::{MessagePool, POOL_SIZE};

/// Reads a payload against `^<\d+> (\S+)( \S+)*$`: the priority and the
/// number of words, or nothing where the payload does not match.
fn read_pool_payload(message: &str) -> Option<(u32, usize)> {
    let rest = message.strip_prefix('<')?;
    let close = rest.find('>')?;
    let digits = &rest[..close];
    if digits.is_empty() || !digits.chars().all(|c| c.is_ascii_digit()) {
        return None;
    }
    let priority: u32 = digits.parse().ok()?;
    let tail = rest[close + 1..].strip_prefix(' ')?;
    let mut words = 0;
    for token in tail.split(' ') {
        if token.is_empty() || token.chars().any(|c| c.is_whitespace()) {
            return None;
        }
        words += 1;
    }
    Some((priority, words))
}

fn pool_for(priority_max: u8, words_max: u8, words_fixed: u8) -> MessagePool {
    let options = Options { sleep_us: 1, priority_max, words_max, words_fixed };
    match MessagePool::generate(&options) {
        Ok(pool) => pool,
        Err(e) => panic!("no pool: {:?}", e),
    }
}

fn messages_of(pool: &MessagePool) -> Vec<String> {
    let mut all = Vec::new();
    for slot in 0..pool.len() {
        match pool.message(slot) {
            Some(m) => all.push(m.clone()),
            None => panic!("slot {} is missing", slot),
        }
    }
    all
}

#[test]
fn pool_has_exactly_4096_messages() {
    let pool = pool_for(50, 20, 0);
    assert_eq!(POOL_SIZE, 4096);
    assert_eq!(pool.len(), 4096);
    assert!(pool.message(0).is_some());
    assert!(pool.message(4095).is_some());
    assert!(pool.message(4096).is_none());
    assert!(pool.message(usize::MAX).is_none());
}

#[test]
fn every_message_has_the_wire_format() {
    let pool = pool_for(50, 20, 0);
    for message in messages_of(&pool) {
        let read = read_pool_payload(&message);
        assert!(read.is_some(), "bad payload {:?}", message);
    }
}

#[test]
fn every_priority_is_below_priority_max() {
    let pool = pool_for(50, 20, 0);
    for message in messages_of(&pool) {
        let (priority, _) = read_pool_payload(&message).unwrap();
        assert!(priority < 50, "priority {} in {:?}", priority, message);
    }
}

#[test]
fn priority_is_written_without_leading_zero() {
    let pool = pool_for(200, 20, 0);
    for message in messages_of(&pool) {
        let (priority, _) = read_pool_payload(&message).unwrap();
        assert!(message.starts_with(&format!("<{}> ", priority)));
    }
}

#[test]
fn fixed_word_count_is_kept_in_every_message() {
    let pool = pool_for(10, 20, 3);
    for message in messages_of(&pool) {
        let (_, words) = read_pool_payload(&message).unwrap();
        assert_eq!(words, 3, "in {:?}", message);
    }
}

#[test]
fn fixed_word_count_wins_over_words_max() {
    let pool = pool_for(10, 2, 7);
    for message in messages_of(&pool) {
        let (_, words) = read_pool_payload(&message).unwrap();
        assert_eq!(words, 7);
    }
    let other = pool_for(10, 0, 1);
    for message in messages_of(&other) {
        let (_, words) = read_pool_payload(&message).unwrap();
        assert_eq!(words, 1);
    }
}

#[test]
fn largest_fixed_word_count() {
    let pool = pool_for(255, 20, 255);
    for message in messages_of(&pool) {
        let (priority, words) = read_pool_payload(&message).unwrap();
        assert!(priority < 255);
        assert_eq!(words, 255);
    }
}

#[test]
fn variable_word_count_lies_in_the_half_open_range() {
    let pool = pool_for(50, 20, 0);
    for message in messages_of(&pool) {
        let (_, words) = read_pool_payload(&message).unwrap();
        assert!(1 <= words && words < 20, "{} words in {:?}", words, message);
    }
}

#[test]
fn smallest_ranges_leave_one_choice() {
    let pool = pool_for(1, 2, 0);
    for message in messages_of(&pool) {
        let (priority, words) = read_pool_payload(&message).unwrap();
        assert_eq!(priority, 0);
        assert_eq!(words, 1);
        assert!(message.starts_with("<0> "));
    }
}

#[test]
fn priorities_and_word_counts_are_drawn_not_constant() {
    let pool = pool_for(8, 5, 0);
    let mut priorities = [false; 8];
    let mut counts = [false; 5];
    for message in messages_of(&pool) {
        let (priority, words) = read_pool_payload(&message).unwrap();
        priorities[priority as usize] = true;
        counts[words] = true;
    }
    assert!(priorities.iter().all(|seen| *seen));
    assert!(!counts[0]);
    assert!(counts[1] && counts[2] && counts[3] && counts[4]);
}

#[test]
fn words_are_drawn_not_constant() {
    let pool = pool_for(10, 20, 1);
    let all = messages_of(&pool);
    let first_word = all[0].split(' ').nth(1).unwrap().to_string();
    assert!(all.iter().any(|m| m.split(' ').nth(1).unwrap() != first_word));
}

#[test]
fn words_are_of_the_vocabulary_alphabet() {
    let pool = pool_for(10, 20, 0);
    for message in messages_of(&pool) {
        let close = message.find('>').unwrap();
        for c in message[close + 2..].chars() {
            let known = c == ' ' || c.is_ascii_lowercase() || c == '\u{ba}';
            assert!(known, "{:?} in {:?}", c, message);
        }
    }
}

#[test]
fn two_pools_differ() {
    let a = messages_of(&pool_for(50, 20, 0));
    let b = messages_of(&pool_for(50, 20, 0));
    assert_ne!(a, b);
}

#[test]
fn no_pool_without_a_priority() {
    let options = Options { sleep_us: 1, priority_max: 0, words_max: 20, words_fixed: 0 };
    assert_eq!(MessagePool::generate(&options).err(), Some(ConfigError::NoPriority));
}

#[test]
fn no_pool_without_a_word_count() {
    let options = Options { sleep_us: 1, priority_max: 50, words_max: 1, words_fixed: 0 };
    assert_eq!(MessagePool::generate(&options).err(), Some(ConfigError::NoWordCount));
    let none = Options { sleep_us: 1, priority_max: 0, words_max: 0, words_fixed: 0 };
    assert_eq!(MessagePool::generate(&none).err(), Some(ConfigError::NoWordCount));
}

#[test]
fn drawn_slots_lie_in_the_pool_and_vary() {
    let mut seen_low = false;
    let mut seen_high = false;
    let first = MessagePool::draw_slot();
    let mut varies = false;
    for _ in 0..20_000 {
        let slot = MessagePool::draw_slot();
        assert!(slot < POOL_SIZE);
        if slot != first {
            varies = true;
        }
        if slot < POOL_SIZE / 2 {
            seen_low = true;
        } else {
            seen_high = true;
        }
    }
    assert!(varies && seen_low && seen_high);
}
