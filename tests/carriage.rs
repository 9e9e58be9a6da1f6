use elevator::carriage::CarriageData;
use rand::seq::SliceRandom;

#[test]
fn when_initialized_then_no_dest() {
    let carriage = CarriageData::new(8);

    assert_eq!(carriage.where_is(), 0);
    assert_eq!(carriage.destination(), None);
}

#[test]
fn when_multiple_dest_specified_then_next_dest_should_be_in_order_of_specification() {
    let mut data: Vec<u8> = (0..8).collect();

    let mut rng = rand::thread_rng();
    data.shuffle(&mut rng);

    let carriage = &mut CarriageData::new(8);

    for i in data.iter() {
        carriage.enqueue_next_destination(*i);
    }

    for i in 0..8 {
        assert_eq!(data[i as usize], carriage.dequeue_next_destination().unwrap_or(8));
    }
}

#[test]
fn when_dest_is_beyond_either_ends_then_dest_floor_should_remain_the_same() {
    let carriage = &mut CarriageData::new(8);

    carriage.set_next_destination(5);

    assert_eq!(carriage.where_is(), 0);
    assert_eq!(carriage.destination().unwrap(), 5);

    carriage.set_next_destination(8);

    assert_eq!(carriage.where_is(), 0);
    assert_eq!(carriage.destination().unwrap(), 5);
}

#[test]
fn out_of_range_destination_on_fresh_carriage_stays_unset() {
    let carriage = &mut CarriageData::new(8);
    assert_eq!(carriage.set_next_destination(8), 0);
    assert_eq!(carriage.destination(), None);
    assert_eq!(carriage.set_next_destination(7), 0);
    assert_eq!(carriage.destination(), Some(7));
}

#[test]
fn single_floor_installation_accepts_only_floor_zero() {
    let carriage = &mut CarriageData::new(1);
    carriage.set_next_destination(1);
    assert_eq!(carriage.destination(), None);
    carriage.set_next_destination(0);
    assert_eq!(carriage.destination(), Some(0));
}

#[test]
fn arrival_commits_destination_and_clears_it() {
    let carriage = &mut CarriageData::new(8);
    carriage.set_next_destination(4);
    assert_eq!(carriage.on_arrival(), 4);
    assert_eq!(carriage.where_is(), 4);
    assert!(carriage.already_at_floor(4));
    assert_eq!(carriage.destination(), None);
    // A second arrival without a destination keeps the floor.
    assert_eq!(carriage.on_arrival(), 4);
}

#[test]
fn empty_queue_dequeues_nothing() {
    let carriage = &mut CarriageData::new(8);
    assert!(!carriage.any_destination_in_queue());
    assert_eq!(carriage.dequeue_next_destination(), None);
    carriage.enqueue_next_destination(3);
    carriage.enqueue_next_destination(3);
    assert!(carriage.any_destination_in_queue());
    assert_eq!(carriage.dequeue_next_destination(), Some(3));
    assert_eq!(carriage.dequeue_next_destination(), Some(3));
    assert_eq!(carriage.dequeue_next_destination(), None);
}

#[test]
fn emergency_request_is_recorded() {
    let carriage = &mut CarriageData::new(8);
    assert!(!carriage.is_emergency_op_requested());
    carriage.prepare_for_emergency();
    assert!(carriage.is_emergency_op_requested());
}
