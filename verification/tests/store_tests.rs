use restaurant_reviews::models::{Rating, World};

fn sample() -> World {
    let mut world = World::default();
    let bonnie = world.create_user("Bonnie".to_string(), "bar".to_string());
    world.create_user("Annie".to_string(), "baz".to_string());
    let bennys = world.create_restaurant("Benny's".to_string(), "Burgers".to_string());
    let sallys = world.create_restaurant("Sally's".to_string(), "Sautes".to_string());
    world.create_review("Avoid".to_string(), Rating(0), bennys, bonnie, Some("cat.jpg".to_string()));
    world.create_review("Fine".to_string(), Rating(0x40400000), sallys, bonnie, None);
    world.create_review("Great".to_string(), Rating(0x40a00000), bennys, 1, None);
    world
}

#[test]
fn empty_store_holds_nothing() {
    let world = World::default();
    assert!(world.all_restaurants().is_empty());
    assert!(world.get_users().is_empty());
    assert!(world.find_user(0).is_none());
    assert!(world.find_restaurant_by_id(0).is_none());
    assert!(world.find_user_by_name("Bonnie").is_none());
    assert!(world.find_reviews_by_restaurant(0).is_empty());
    assert!(world.find_reviews_by_user(0).is_empty());
}

#[test]
fn ids_are_positions_in_order_of_creation() {
    let mut world = World::default();
    assert_eq!(world.create_user("a".to_string(), "h".to_string()), 0);
    assert_eq!(world.create_user("b".to_string(), "h".to_string()), 1);
    assert_eq!(world.create_restaurant("r".to_string(), "d".to_string()), 0);
    assert_eq!(world.create_restaurant("s".to_string(), "d".to_string()), 1);
    assert_eq!(world.create_restaurant("t".to_string(), "d".to_string()), 2);
    assert_eq!(world.create_review("c".to_string(), Rating(0), 0, 0, None), 0);
    assert_eq!(world.create_review("d".to_string(), Rating(0), 9, 9, None), 1);
    assert_eq!(world.get_users().len(), 2);
    assert_eq!(world.all_restaurants().len(), 3);
}

#[test]
fn restaurants_are_listed_in_order() {
    let world = sample();
    let all = world.all_restaurants();
    assert_eq!(all.len(), 2);
    assert_eq!((all[0].id, all[0].name.as_str(), all[0].description.as_str()), (0, "Benny's", "Burgers"));
    assert_eq!((all[1].id, all[1].name.as_str(), all[1].description.as_str()), (1, "Sally's", "Sautes"));
}

#[test]
fn restaurant_is_found_by_id() {
    let world = sample();
    let found = world.find_restaurant_by_id(1).unwrap();
    assert_eq!((found.id, found.name.as_str()), (1, "Sally's"));
    assert!(world.find_restaurant_by_id(2).is_none());
    assert!(world.find_restaurant_by_id(usize::MAX).is_none());
}

#[test]
fn reviews_are_filtered_by_restaurant() {
    let world = sample();
    let of_bennys = world.find_reviews_by_restaurant(0);
    assert_eq!(of_bennys.len(), 2);
    assert_eq!((of_bennys[0].id, of_bennys[0].comment.as_str()), (0, "Avoid"));
    assert_eq!(of_bennys[0].image_name.as_deref(), Some("cat.jpg"));
    assert_eq!(of_bennys[0].rating, Rating(0));
    assert_eq!((of_bennys[1].id, of_bennys[1].comment.as_str()), (2, "Great"));
    assert_eq!(of_bennys[1].rating, Rating(0x40a00000));
    let of_sallys = world.find_reviews_by_restaurant(1);
    assert_eq!(of_sallys.len(), 1);
    assert_eq!((of_sallys[0].id, of_sallys[0].writer, of_sallys[0].restaurant), (1, 0, 1));
    assert!(world.find_reviews_by_restaurant(2).is_empty());
}

#[test]
fn reviews_are_filtered_by_writer() {
    let world = sample();
    let by_bonnie = world.find_reviews_by_user(0);
    assert_eq!(by_bonnie.len(), 2);
    assert_eq!((by_bonnie[0].id, by_bonnie[1].id), (0, 1));
    let by_annie = world.find_reviews_by_user(1);
    assert_eq!(by_annie.len(), 1);
    assert_eq!(by_annie[0].id, 2);
    assert!(world.find_reviews_by_user(5).is_empty());
}

#[test]
fn users_are_found_by_id_and_by_name() {
    let world = sample();
    let users = world.get_users();
    assert_eq!(users.len(), 2);
    assert_eq!((users[0].id, users[0].name.as_str(), users[0].hash.as_str()), (0, "Bonnie", "bar"));
    let annie = world.find_user(1).unwrap();
    assert_eq!((annie.id, annie.name.as_str(), annie.hash.as_str()), (1, "Annie", "baz"));
    assert!(world.find_user(2).is_none());
    let found = world.find_user_by_name("Annie").unwrap();
    assert_eq!(found.id, 1);
    assert!(world.find_user_by_name("annie").is_none());
    assert!(world.find_user_by_name("").is_none());
}

#[test]
fn first_user_of_a_name_wins() {
    let mut world = World::default();
    world.create_user("x".to_string(), "one".to_string());
    world.create_user("twin".to_string(), "two".to_string());
    world.create_user("twin".to_string(), "three".to_string());
    let found = world.find_user_by_name("twin").unwrap();
    assert_eq!((found.id, found.hash.as_str()), (1, "two"));
}

#[test]
fn clones_keep_every_field() {
    let world = sample();
    let review = world.find_reviews_by_restaurant(0).remove(0);
    let copy = review.clone();
    assert_eq!(copy.id, review.id);
    assert_eq!(copy.comment, review.comment);
    assert_eq!(copy.rating, review.rating);
    assert_eq!(copy.restaurant, review.restaurant);
    assert_eq!(copy.writer, review.writer);
    assert_eq!(copy.image_name, review.image_name);
    let user = world.find_user(0).unwrap().clone();
    assert_eq!((user.id, user.name.as_str(), user.hash.as_str()), (0, "Bonnie", "bar"));
    let restaurant = world.find_restaurant_by_id(0).unwrap().clone();
    assert_eq!((restaurant.id, restaurant.name.as_str()), (0, "Benny's"));
}
