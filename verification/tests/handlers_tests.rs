use restaurant_reviews::crypto::authn::{AuthnToken, KeyPair};
use restaurant_reviews::crypto::pwhash;
use restaurant_reviews::errors::ServiceError;
use restaurant_reviews::handlers::{
    check, index, list_restaurants, login_user_action, profile, register_user, show_restaurant,
    show_review,
};
use restaurant_reviews::models::{Rating, UserPassword, World};

fn sample() -> World {
    let mut world = World::default();
    world.create_user("Bonnie".to_string(), "bar".to_string());
    world.create_user("Annie".to_string(), "baz".to_string());
    world.create_restaurant("Benny's".to_string(), "Burgers".to_string());
    world.create_restaurant("Sally's".to_string(), "Sautes".to_string());
    world.create_review("Avoid".to_string(), Rating(0), 0, 0, None);
    world.create_review("Fine".to_string(), Rating(1), 1, 0, None);
    world.create_review("Great".to_string(), Rating(2), 0, 1, None);
    world.create_review("Ghost".to_string(), Rating(3), 0, 7, None);
    world.create_review("Nowhere".to_string(), Rating(4), 9, 1, None);
    world
}

fn form(username: &str, password: &str) -> UserPassword {
    UserPassword { username: username.to_string(), password: password.to_string() }
}

#[test]
fn restaurant_page_lists_reviews_with_their_writers() {
    let world = sample();
    let (restaurant, rows) = show_restaurant(0, &world).unwrap();
    assert_eq!((restaurant.id, restaurant.name.as_str()), (0, "Benny's"));
    assert_eq!(rows.len(), 3);
    assert_eq!(rows[0].0.comment, "Avoid");
    assert_eq!(rows[0].1.as_ref().unwrap().name, "Bonnie");
    assert_eq!(rows[1].0.comment, "Great");
    assert_eq!(rows[1].1.as_ref().unwrap().name, "Annie");
    assert_eq!(rows[2].0.comment, "Ghost");
    assert!(rows[2].1.is_none());
}

#[test]
fn restaurant_page_of_an_unknown_restaurant_is_not_found() {
    let world = sample();
    assert_eq!(show_restaurant(2, &world).err(), Some(ServiceError::NotFound));
    assert_eq!(show_restaurant(0, &World::default()).err(), Some(ServiceError::NotFound));
}

#[test]
fn restaurant_without_reviews_has_an_empty_page() {
    let mut world = sample();
    let id = world.create_restaurant("New".to_string(), "Empty".to_string());
    let (restaurant, rows) = show_restaurant(id, &world).unwrap();
    assert_eq!(restaurant.name, "New");
    assert!(rows.is_empty());
}

#[test]
fn review_page_shows_review_restaurant_and_writer() {
    let world = sample();
    let (review, restaurant, writer) = show_review(0, 2, &world).unwrap();
    assert_eq!((review.id, review.comment.as_str()), (2, "Great"));
    assert_eq!(restaurant.name, "Benny's");
    assert_eq!(writer.unwrap().name, "Annie");
    let (review, _, writer) = show_review(0, 3, &world).unwrap();
    assert_eq!(review.comment, "Ghost");
    assert!(writer.is_none());
}

#[test]
fn review_page_is_not_found_for_a_mismatch() {
    let world = sample();
    assert_eq!(show_review(1, 0, &world).err(), Some(ServiceError::NotFound));
    assert_eq!(show_review(0, 1, &world).err(), Some(ServiceError::NotFound));
    assert_eq!(show_review(0, 99, &world).err(), Some(ServiceError::NotFound));
    assert_eq!(show_review(9, 4, &world).err(), Some(ServiceError::NotFound));
    assert_eq!(show_review(5, 0, &world).err(), Some(ServiceError::NotFound));
}

#[test]
fn profile_lists_reviews_with_their_restaurants() {
    let world = sample();
    let (user, rows) = profile(1, &world).unwrap();
    assert_eq!(user.name, "Annie");
    assert_eq!(rows.len(), 2);
    assert_eq!(rows[0].0.comment, "Great");
    assert_eq!(rows[0].1.as_ref().unwrap().name, "Benny's");
    assert_eq!(rows[1].0.comment, "Nowhere");
    assert!(rows[1].1.is_none());
    assert_eq!(profile(2, &world).err(), Some(ServiceError::NotFound));
}

#[test]
fn registering_adds_the_user_and_issues_a_token() {
    let keypair = KeyPair::generate();
    let mut world = sample();
    let (id, token) = register_user(form("Connie", "s3cret"), &mut world, &keypair).unwrap();
    assert_eq!(id, 2);
    assert_eq!(token.claims.user_id, 2);
    assert_eq!(token.claims.exp, token.claims.iat + 86400);
    assert_eq!(token.verify(&keypair), Ok(()));
    let users = world.get_users();
    assert_eq!(users.len(), 3);
    assert_eq!((users[2].id, users[2].name.as_str()), (2, "Connie"));
    assert_ne!(users[2].hash, "s3cret");
    assert_eq!(pwhash::verify(&users[2].hash, "s3cret"), Ok(()));
    assert_eq!(world.all_restaurants().len(), 2);
}

#[test]
fn registering_a_taken_name_changes_nothing() {
    let keypair = KeyPair::generate();
    let mut world = sample();
    let r = register_user(form("Annie", "pw"), &mut world, &keypair);
    assert_eq!(r.err(), Some(ServiceError::AlreadyExists));
    assert_eq!(world.get_users().len(), 2);
    assert_eq!(world.find_user(1).unwrap().hash, "baz");
}

#[test]
fn login_checks_name_then_password() {
    let keypair = KeyPair::generate();
    let mut world = sample();
    let (id, _) = register_user(form("Connie", "s3cret"), &mut world, &keypair).unwrap();
    assert_eq!(login_user_action(&form("Connie", "s3cret"), &world), Ok(id));
    assert_eq!(
        login_user_action(&form("Connie", "wrong"), &world),
        Err(ServiceError::Unauthorized)
    );
    assert_eq!(login_user_action(&form("Nobody", "s3cret"), &world), Err(ServiceError::NotFound));
    assert_eq!(login_user_action(&form("Bonnie", "bar"), &world), Err(ServiceError::Unauthorized));
}

#[test]
fn check_names_the_bearer() {
    let keypair = KeyPair::generate();
    let world = sample();
    let token = AuthnToken::from_user_id(1, &keypair).unwrap();
    assert_eq!(check(&token, &world), Ok("Annie".to_string()));
    let token = AuthnToken::from_user_id(2, &keypair).unwrap();
    assert_eq!(check(&token, &world), Err(ServiceError::NotFound));
    let token = AuthnToken::from_user_id(-1, &keypair).unwrap();
    assert_eq!(check(&token, &world), Err(ServiceError::NotFound));
}

#[test]
fn password_hashes_match_their_password_only() {
    let hash = pwhash::hash_password("hunter2").unwrap();
    assert!(hash.starts_with("$argon2"));
    assert_ne!(hash, "hunter2");
    assert_eq!(pwhash::verify(&hash, "hunter2"), Ok(()));
    assert_eq!(pwhash::verify(&hash, "hunter3"), Err(ServiceError::Unauthorized));
    assert_eq!(pwhash::verify(&hash, ""), Err(ServiceError::Unauthorized));
    assert_ne!(pwhash::hash_password("hunter2").unwrap(), hash);
}

#[test]
fn unreadable_hash_is_unauthorized() {
    assert_eq!(pwhash::verify("bar", "bar"), Err(ServiceError::Unauthorized));
    assert_eq!(pwhash::verify("", ""), Err(ServiceError::Unauthorized));
    assert_eq!(pwhash::verify("$argon2id$v=19$m=19456,t=2,p=1$", "x"), Err(ServiceError::Unauthorized));
}

#[test]
fn hashing_outcomes_are_mapped() {
    assert_eq!(pwhash::hashed(Ok("h".to_string())), Ok("h".to_string()));
    assert_eq!(
        pwhash::hashed(Err(argon2::password_hash::Error::Password)),
        Err(ServiceError::Hashing)
    );
    assert_eq!(pwhash::checked(Ok(())), Ok(()));
    assert_eq!(
        pwhash::checked(Err(argon2::password_hash::Error::Password)),
        Err(ServiceError::Unauthorized)
    );
    assert_eq!(
        pwhash::checked(Err(argon2::password_hash::Error::Algorithm)),
        Err(ServiceError::Unauthorized)
    );
}

#[test]
fn restaurants_are_listed_with_their_reviews() {
    let mut world = sample();
    world.create_restaurant("New".to_string(), "Empty".to_string());
    for rows in [list_restaurants(&world), index(&world)] {
        assert_eq!(rows.len(), 3);
        assert_eq!((rows[0].0.id, rows[0].0.name.as_str()), (0, "Benny's"));
        let comments: Vec<&str> = rows[0].1.iter().map(|r| r.comment.as_str()).collect();
        assert_eq!(comments, vec!["Avoid", "Great", "Ghost"]);
        assert_eq!(rows[1].0.name, "Sally's");
        assert_eq!(rows[1].1.len(), 1);
        assert_eq!(rows[1].1[0].comment, "Fine");
        assert_eq!(rows[2].0.name, "New");
        assert!(rows[2].1.is_empty());
    }
    assert!(list_restaurants(&World::default()).is_empty());
}
