use platform::Arena;

#[test]
fn new_arena_is_vacant() {
    let arena: Arena<u32> = Arena::new();
    assert!(arena.is_vacant());
    assert_eq!(arena.get(), None);
}

#[test]
fn literal_arena_is_vacant() {
    let arena: Arena<u64> = Arena { slot: None };
    assert!(arena.is_vacant());
}

#[test]
fn init_moves_the_value_in() {
    let mut arena: Arena<u32> = Arena::new();
    let handle = arena.init(7);
    assert_eq!(*handle, 7);
    assert!(!arena.is_vacant());
    assert_eq!(arena.get(), Some(&7));
}

#[test]
fn writes_through_the_handle_land_in_the_arena() {
    let mut arena: Arena<(u8, u8)> = Arena::new();
    let handle = arena.init((1, 2));
    handle.0 = 10;
    handle.1 = 20;
    assert_eq!(arena.get(), Some(&(10, 20)));
}

#[test]
fn try_init_places_into_a_vacant_arena() {
    let mut arena: Arena<u32> = Arena::new();
    match arena.try_init(5) {
        Ok(handle) => {
            assert_eq!(*handle, 5);
            *handle = 6;
        }
        Err(_) => panic!("a vacant arena takes the value"),
    }
    assert_eq!(arena.get(), Some(&6));
}

#[test]
fn try_init_leaves_an_occupied_arena_alone() {
    let mut arena: Arena<u32> = Arena::new();
    arena.init(5);
    match arena.try_init(9) {
        Ok(_) => panic!("an occupied arena takes nothing"),
        Err(back) => assert_eq!(back, 9),
    }
    assert_eq!(arena.get(), Some(&5));
}

#[test]
fn get_mut_reaches_the_placed_value() {
    let mut arena: Arena<u32> = Arena::new();
    assert!(arena.get_mut().is_none());
    arena.init(1);
    match arena.get_mut() {
        Some(handle) => *handle += 41,
        None => panic!("the arena is occupied"),
    }
    assert_eq!(arena.get(), Some(&42));
    assert!(!arena.is_vacant());
}

#[test]
fn an_arena_hosts_a_value_that_is_not_copy() {
    let mut arena: Arena<Vec<u8>> = Arena::new();
    let handle = arena.init(vec![1, 2, 3]);
    handle.push(4);
    assert_eq!(arena.get(), Some(&vec![1, 2, 3, 4]));
}
