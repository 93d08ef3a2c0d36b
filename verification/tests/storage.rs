use parsec::{Entity, HashMapStorage, Storage, VecStorage};

fn test_add<S>()
where
    S: Storage<u32>,
{
    let mut s = S::new();
    for i in 0..1_000 {
        s.insert(Entity::new(i, 1), i + 2718);
    }

    for i in 0..1_000 {
        assert_eq!(*s.get(Entity::new(i, 1)).unwrap(), i + 2718);
    }
}

fn test_sub<S>()
where
    S: Storage<u32>,
{
    let mut s = S::new();
    for i in 0..1_000 {
        s.insert(Entity::new(i, 1), i + 2718);
    }

    for i in 0..1_000 {
        assert_eq!(s.remove(Entity::new(i, 1)).unwrap(), i + 2718);
        assert!(s.remove(Entity::new(i, 1)).is_none());
    }
}

fn test_get_mut<S>()
where
    S: Storage<u32>,
{
    let mut s = S::new();
    for i in 0..1_000 {
        s.insert(Entity::new(i, 1), i + 2718);
    }

    for i in 0..1_000 {
        *s.get_mut(Entity::new(i, 1)).unwrap() -= 718;
    }

    for i in 0..1_000 {
        assert_eq!(*s.get(Entity::new(i, 1)).unwrap(), i + 2000);
    }
}

fn test_add_gen<S>()
where
    S: Storage<u32>,
{
    let mut s = S::new();
    for i in 0..1_000 {
        s.insert(Entity::new(i, 1), i + 2718);
        s.insert(Entity::new(i, 2), i + 31415);
    }

    for i in 0..1_000 {
        // The two strategies disagree on what generation 1 reads here.
        assert_eq!(*s.get(Entity::new(i, 2)).unwrap(), i + 31415);
    }
}

fn test_sub_gen<S>()
where
    S: Storage<u32>,
{
    let mut s = S::new();
    for i in 0..1_000 {
        s.insert(Entity::new(i, 2), i + 2718);
    }

    for i in 0..1_000 {
        assert!(s.remove(Entity::new(i, 1)).is_none());
    }
}

#[test]
fn vec_test_add() {
    test_add::<VecStorage<u32>>();
}

#[test]
fn vec_test_sub() {
    test_sub::<VecStorage<u32>>();
}

#[test]
fn vec_test_get_mut() {
    test_get_mut::<VecStorage<u32>>();
}

#[test]
fn vec_test_add_gen() {
    test_add_gen::<VecStorage<u32>>();
}

#[test]
fn vec_test_sub_gen() {
    test_sub_gen::<VecStorage<u32>>();
}

#[test]
fn hash_test_add() {
    test_add::<HashMapStorage<u32>>();
}

#[test]
fn hash_test_sub() {
    test_sub::<HashMapStorage<u32>>();
}

#[test]
fn hash_test_get_mut() {
    test_get_mut::<HashMapStorage<u32>>();
}

#[test]
fn hash_test_add_gen() {
    test_add_gen::<HashMapStorage<u32>>();
}

#[test]
fn hash_test_sub_gen() {
    test_sub_gen::<HashMapStorage<u32>>();
}
