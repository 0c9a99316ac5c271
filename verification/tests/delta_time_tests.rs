use midi_generator::delta_time::{create_delta_time, DeltaTime};
use midi_generator::random::{uniform_bytes, weighted, weights_valid};

#[test]
fn one_septet_stays_as_it_is() {
    assert_eq!(DeltaTime::from_septets(vec![0]).data, vec![0x00]);
    assert_eq!(DeltaTime::from_septets(vec![5]).data, vec![0x05]);
    assert_eq!(DeltaTime::from_septets(vec![127]).data, vec![0x7F]);
}

#[test]
fn all_septets_but_the_last_get_the_continuation_bit() {
    assert_eq!(DeltaTime::from_septets(vec![1, 0]).data, vec![0x81, 0x00]);
    assert_eq!(DeltaTime::from_septets(vec![0, 0]).data, vec![0x80, 0x00]);
    assert_eq!(DeltaTime::from_septets(vec![127, 127, 127]).data, vec![0xFF, 0xFF, 0x7F]);
    assert_eq!(DeltaTime::from_septets(vec![0x40, 0x00, 0x00, 0x01]).data, vec![0xC0, 0x80, 0x80, 0x01]);
}

#[test]
fn ticks_read_the_septets_in_base_128() {
    assert_eq!(DeltaTime::from_septets(vec![0]).ticks(), 0);
    assert_eq!(DeltaTime::from_septets(vec![0x40]).ticks(), 0x40);
    assert_eq!(DeltaTime::from_septets(vec![127]).ticks(), 127);
    assert_eq!(DeltaTime::from_septets(vec![1, 0]).ticks(), 128);
    assert_eq!(DeltaTime::from_septets(vec![0x40, 0x00]).ticks(), 0x2000);
    assert_eq!(DeltaTime::from_septets(vec![127, 127]).ticks(), 0x3FFF);
    assert_eq!(DeltaTime::from_septets(vec![1, 0, 0]).ticks(), 0x4000);
    assert_eq!(DeltaTime::from_septets(vec![127, 127, 127]).ticks(), 0x1F_FFFF);
    assert_eq!(DeltaTime::from_septets(vec![0x40, 0, 0, 0]).ticks(), 0x800_0000);
    assert_eq!(DeltaTime::from_septets(vec![127, 127, 127, 127]).ticks(), 0x0FFF_FFFF);
}

#[test]
fn ticks_of_given_bytes() {
    let delta = DeltaTime { data: vec![0x81, 0x48] };
    assert_eq!(delta.ticks(), 200);
    let delta = DeltaTime { data: vec![0x80, 0x80, 0x05] };
    assert_eq!(delta.ticks(), 5);
}

#[test]
fn created_delta_times_are_well_formed() {
    for _ in 0..1000 {
        let delta = create_delta_time();
        let n = delta.data.len();
        assert!(n >= 1 && n <= 4);
        for byte in &delta.data[..n - 1] {
            assert_eq!(byte & 0x80, 0x80);
        }
        assert_eq!(delta.data[n - 1] & 0x80, 0);
        assert!(delta.ticks() < 0x1000_0000);
    }
}

#[test]
fn created_delta_times_are_mostly_short() {
    let mut counts = [0usize; 5];
    for _ in 0..4000 {
        counts[create_delta_time().data.len()] += 1;
    }
    assert_eq!(counts[0], 0);
    assert!(counts[1] > counts[2]);
    assert!(counts[2] > counts[4]);
    assert!(counts[1] > 2000);
    assert!(counts[2] + counts[3] + counts[4] > 0);
}

#[test]
fn weighted_returns_one_of_the_values() {
    let values: Vec<char> = vec!['a', 'b', 'c'];
    let weights: Vec<u32> = vec![2, 1, 1];
    let mut seen = [false; 3];
    for _ in 0..500 {
        let drawn = weighted(&values, &weights);
        match drawn {
            'a' => seen[0] = true,
            'b' => seen[1] = true,
            'c' => seen[2] = true,
            _ => panic!("a value that was not offered"),
        }
    }
    assert_eq!(seen, [true, true, true]);
}

#[test]
fn weighted_with_one_value_returns_it() {
    let values: Vec<u8> = vec![9];
    let weights: Vec<u32> = vec![1];
    for _ in 0..20 {
        assert_eq!(weighted(&values, &weights), 9);
    }
}

#[test]
fn weighted_follows_the_weights() {
    let values: Vec<u8> = vec![0, 1];
    let weights: Vec<u32> = vec![99, 1];
    let mut heavy = 0usize;
    for _ in 0..2000 {
        if weighted(&values, &weights) == 0 {
            heavy += 1;
        }
    }
    assert!(heavy > 1800);
}

#[test]
fn weighted_takes_the_largest_total() {
    let values: Vec<u8> = vec![1, 2];
    let weights: Vec<u32> = vec![u32::MAX - 1, 1];
    for _ in 0..20 {
        let drawn = weighted(&values, &weights);
        assert!(drawn == 1 || drawn == 2);
    }
}

#[test]
fn uniform_bytes_stay_in_range() {
    let bytes = uniform_bytes(2000, 10, 13);
    assert_eq!(bytes.len(), 2000);
    let mut seen = [false; 3];
    for byte in bytes {
        assert!(byte >= 10 && byte < 13);
        seen[(byte - 10) as usize] = true;
    }
    assert_eq!(seen, [true, true, true]);
}

#[test]
fn uniform_bytes_of_a_single_value() {
    assert_eq!(uniform_bytes(5, 7, 8), vec![7, 7, 7, 7, 7]);
    assert_eq!(uniform_bytes(0, 0, 128), Vec::<u8>::new());
}

#[test]
fn weight_lists_are_judged() {
    assert!(weights_valid(&vec![80, 12, 6, 2]));
    assert!(weights_valid(&vec![1]));
    assert!(weights_valid(&vec![u32::MAX]));
    assert!(weights_valid(&vec![u32::MAX - 1, 1]));
    assert!(!weights_valid(&vec![]));
    assert!(!weights_valid(&vec![0]));
    assert!(!weights_valid(&vec![5, 0, 5]));
    assert!(!weights_valid(&vec![u32::MAX, 1]));
    assert!(!weights_valid(&vec![1, u32::MAX]));
    assert!(!weights_valid(&vec![0x8000_0000, 0x7FFF_FFFF, 1]));
    assert!(weights_valid(&vec![0x8000_0000, 0x7FFF_FFFE, 1]));
}
