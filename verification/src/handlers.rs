//! What the service's pages and actions decide, on the store and on what a
//! request carries. Locking the store, reading forms and rendering pages are
//! the caller's.

use crate::crypto::authn::{AuthnToken, KeyPair};
use crate::crypto::clock::clock_range;
use crate::crypto::pwhash;
use crate::crypto::pwhash::{password_matches, verified};
use crate::errors::ServiceError;
use crate::filters::middleware::{bearer_id, store_id};
use crate::models::{
    first_named,
    lookup,
    reviews_of_restaurant,
    reviews_of_writer,
    Restaurant,
    Review,
    User,
    UserPassword,
    World,
};
use vstd::prelude::*;

verus! {

/// The first review among `reviews` with the given id, if there is one.
pub open spec fn first_with_id(reviews: Seq<Review>, id: usize) -> Option<Review>
    decreases reviews.len(),
{
    if reviews.len() == 0 {
        None
    } else if reviews[0].id == id {
        Some(reviews[0])
    } else {
        first_with_id(reviews.subrange(1, reviews.len() as int), id)
    }
}

proof fn lemma_first_with_id(reviews: Seq<Review>, id: usize, i: int)
    requires
        0 <= i <= reviews.len(),
        forall|k: int| 0 <= k < i ==> (#[trigger] reviews[k]).id != id,
        i < reviews.len() ==> reviews[i].id == id,
    ensures
        first_with_id(reviews, id) == if i < reviews.len() {
            Some(reviews[i])
        } else {
            None
        },
    decreases i,
{
    if i > 0 {
        let rest = reviews.subrange(1, reviews.len() as int);
        assert forall|k: int| 0 <= k < i - 1 implies (#[trigger] rest[k]).id != id by {
            assert(rest[k] == reviews[k + 1]);
        }
        lemma_first_with_id(rest, id, i - 1);
    }
}

/// Whether `rows` lists every restaurant of the store, in order, each with
/// the reviews of it.
pub open spec fn lists_restaurants(rows: Seq<(Restaurant, Vec<Review>)>, world: World) -> bool {
    &&& rows.len() == world.restaurants().len()
    &&& forall|i: int|
        0 <= i < rows.len() ==> (#[trigger] rows[i]).0 == world.restaurants()[i] && rows[i].1@
            == reviews_of_restaurant(world.reviews(), world.restaurants()[i].id)
}

/// The front page: every restaurant with the reviews of it.
pub fn index(world: &World) -> (rows: Vec<(Restaurant, Vec<Review>)>)
    ensures
        lists_restaurants(rows@, *world),
{
    list_restaurants(world)
}

/// The list of restaurants: every restaurant with the reviews of it.
pub fn list_restaurants(world: &World) -> (rows: Vec<(Restaurant, Vec<Review>)>)
    ensures
        lists_restaurants(rows@, *world),
{
    let restaurants = world.all_restaurants();
    let mut rows: Vec<(Restaurant, Vec<Review>)> = Vec::new();
    let mut i: usize = 0;
    while i < restaurants.len()
        invariant
            i <= restaurants@.len(),
            restaurants@ == world.restaurants(),
            rows@.len() == i,
            forall|k: int|
                0 <= k < i ==> (#[trigger] rows@[k]).0 == restaurants@[k] && rows@[k].1@
                    == reviews_of_restaurant(world.reviews(), restaurants@[k].id),
        decreases restaurants@.len() - i,
    {
        let restaurant = restaurants[i].clone();
        let reviews = world.find_reviews_by_restaurant(restaurant.id);
        rows.push((restaurant, reviews));
        i += 1;
    }
    rows
}

/// The page of a restaurant: the restaurant, and each review of it with the
/// user who wrote it, where the store knows that user.
pub fn show_restaurant(id: usize, world: &World) -> (r: Result<
    (Restaurant, Vec<(Review, Option<User>)>),
    ServiceError,
>)
    ensures
        match r {
            Ok((restaurant, rows)) => {
                let reviews = reviews_of_restaurant(world.reviews(), id);
                &&& Some(restaurant) == lookup(world.restaurants(), id)
                &&& rows@.len() == reviews.len()
                &&& forall|i: int|
                    0 <= i < rows@.len() ==> (#[trigger] rows@[i]).0 == reviews[i] && rows@[i].1
                        == lookup(world.users(), reviews[i].writer)
            },
            Err(e) => lookup(world.restaurants(), id) is None && e == ServiceError::NotFound,
        },
{
    let restaurant = match world.find_restaurant_by_id(id) {
        Some(restaurant) => restaurant,
        None => {
            return Err(ServiceError::NotFound);
        },
    };
    let reviews = world.find_reviews_by_restaurant(id);
    let ghost all = reviews@;
    let mut rows: Vec<(Review, Option<User>)> = Vec::new();
    let mut i: usize = 0;
    while i < reviews.len()
        invariant
            i <= all.len(),
            reviews@ == all,
            rows@.len() == i,
            forall|k: int|
                0 <= k < i ==> (#[trigger] rows@[k]).0 == all[k] && rows@[k].1 == lookup(
                    world.users(),
                    all[k].writer,
                ),
        decreases all.len() - i,
    {
        let review = reviews[i].clone();
        let user = world.find_user(review.writer);
        rows.push((review, user));
        i += 1;
    }
    Ok((restaurant, rows))
}

/// The page of one review of a restaurant: the review, the restaurant, and
/// the user who wrote the review, where the store knows that user.
pub fn show_review(restaurant_id: usize, review_id: usize, world: &World) -> (r: Result<
    (Review, Restaurant, Option<User>),
    ServiceError,
>)
    ensures
        match r {
            Ok((review, restaurant, writer)) => {
                &&& Some(review) == first_with_id(
                    reviews_of_restaurant(world.reviews(), restaurant_id),
                    review_id,
                )
                &&& Some(restaurant) == lookup(world.restaurants(), restaurant_id)
                &&& writer == lookup(world.users(), review.writer)
            },
            Err(e) => {
                &&& e == ServiceError::NotFound
                &&& first_with_id(reviews_of_restaurant(world.reviews(), restaurant_id), review_id)
                    is None || lookup(world.restaurants(), restaurant_id) is None
            },
        },
{
    let reviews = world.find_reviews_by_restaurant(restaurant_id);
    let mut i: usize = 0;
    while i < reviews.len() && reviews[i].id != review_id
        invariant
            i <= reviews@.len(),
            forall|k: int| 0 <= k < i ==> (#[trigger] reviews@[k]).id != review_id,
        decreases reviews@.len() - i,
    {
        i += 1;
    }
    proof {
        lemma_first_with_id(reviews@, review_id, i as int);
    }
    if i >= reviews.len() {
        return Err(ServiceError::NotFound);
    }
    let review = reviews[i].clone();
    let restaurant = match world.find_restaurant_by_id(restaurant_id) {
        Some(restaurant) => restaurant,
        None => {
            return Err(ServiceError::NotFound);
        },
    };
    let user = world.find_user(review.writer);
    Ok((review, restaurant, user))
}

/// What registering leaves of a store: the users it had, and after them the
/// new one, under the given name and with a hash that matches the password.
pub open spec fn registered(
    before: World,
    after: World,
    id: usize,
    user: UserPassword,
) -> bool {
    &&& id == before.users().len()
    &&& after.users().len() == id + 1
    &&& after.users().subrange(0, id as int) == before.users()
    &&& after.users()[id as int].id == id
    &&& after.users()[id as int].name == user.username
    &&& password_matches(after.users()[id as int].hash@, user.password@)
    &&& after.restaurants() == before.restaurants()
    &&& after.reviews() == before.reviews()
}

/// Registers a user and issues their first token. A name that is taken is
/// turned down with `AlreadyExists`, and so is nothing else; where the
/// password cannot be hashed `Hashing` comes back. The store changes only
/// where the registration succeeds.
pub fn register_user(user: UserPassword, world: &mut World, keypair: &KeyPair) -> (r: Result<
    (usize, AuthnToken),
    ServiceError,
>)
    ensures
        old(world).wf() ==> final(world).wf(),
        match r {
            Ok((id, token)) => {
                &&& first_named(old(world).users(), user.username@) is None
                &&& registered(*old(world), *final(world), id, user)
                &&& token.issued_by(keypair@, id as i64, token.claims.iat)
                &&& clock_range(token.claims.iat)
            },
            Err(e) => {
                &&& *final(world) == *old(world)
                &&& e == if first_named(old(world).users(), user.username@) is Some {
                    ServiceError::AlreadyExists
                } else {
                    ServiceError::Hashing
                }
            },
        },
{
    if world.find_user_by_name(user.username.as_str()).is_some() {
        return Err(ServiceError::AlreadyExists);
    }
    let pass_hash = match pwhash::hash_password(user.password.as_str()) {
        Ok(pass_hash) => pass_hash,
        Err(e) => {
            return Err(e);
        },
    };
    let user_id = world.create_user(user.username, pass_hash);
    assert(world.users().subrange(0, user_id as int) =~= old(world).users());
    match AuthnToken::from_user_id(#[verifier::truncate] (user_id as i64), keypair) {
        Ok(token) => Ok((user_id, token)),
        Err(e) => Err(e),
    }
}

/// The profile of a user: the user, and each review they wrote with the
/// restaurant it is about, where the store knows that restaurant.
pub fn profile(user: usize, world: &World) -> (r: Result<
    (User, Vec<(Review, Option<Restaurant>)>),
    ServiceError,
>)
    ensures
        match r {
            Ok((found, rows)) => {
                let reviews = reviews_of_writer(world.reviews(), found.id);
                &&& Some(found) == lookup(world.users(), user)
                &&& rows@.len() == reviews.len()
                &&& forall|i: int|
                    0 <= i < rows@.len() ==> (#[trigger] rows@[i]).0 == reviews[i] && rows@[i].1
                        == lookup(world.restaurants(), reviews[i].restaurant)
            },
            Err(e) => lookup(world.users(), user) is None && e == ServiceError::NotFound,
        },
{
    let found = match world.find_user(user) {
        Some(found) => found,
        None => {
            return Err(ServiceError::NotFound);
        },
    };
    let reviews = world.find_reviews_by_user(found.id);
    let mut rows: Vec<(Review, Option<Restaurant>)> = Vec::new();
    let mut i: usize = 0;
    while i < reviews.len()
        invariant
            i <= reviews@.len(),
            rows@.len() == i,
            forall|k: int|
                0 <= k < i ==> (#[trigger] rows@[k]).0 == reviews@[k] && rows@[k].1 == lookup(
                    world.restaurants(),
                    reviews@[k].restaurant,
                ),
        decreases reviews@.len() - i,
    {
        let review = reviews[i].clone();
        let restaurant = world.find_restaurant_by_id(review.restaurant);
        rows.push((review, restaurant));
        i += 1;
    }
    Ok((found, rows))
}

/// The name of the user that a token was issued to.
pub fn check(token: &AuthnToken, world: &World) -> (r: Result<String, ServiceError>)
    ensures
        match r {
            Ok(name) => lookup(world.users(), store_id(token.claims.user_id)) matches Some(user)
                && name == user.name,
            Err(e) => lookup(world.users(), store_id(token.claims.user_id)) is None && e
                == ServiceError::NotFound,
        },
{
    match world.find_user(bearer_id(token)) {
        Some(user) => Ok(user.name),
        None => Err(ServiceError::NotFound),
    }
}

/// What a login comes to: the id of the user of that name, if there is one
/// and the password matches their hash.
pub open spec fn login_outcome(users: Seq<User>, username: Seq<char>, password: Seq<char>) -> Result<
    usize,
    ServiceError,
> {
    match first_named(users, username) {
        None => Err(ServiceError::NotFound),
        Some(user) => match verified(user.hash@, password) {
            Ok(_) => Ok(user.id),
            Err(e) => Err(e),
        },
    }
}

/// Checks a login: the name has to be that of a user, and the password has
/// to match that user's hash.
pub fn login_user_action(incoming: &UserPassword, world: &World) -> (r: Result<usize, ServiceError>)
    ensures
        r == login_outcome(world.users(), incoming.username@, incoming.password@),
{
    let user = match world.find_user_by_name(incoming.username.as_str()) {
        Some(user) => user,
        None => {
            return Err(ServiceError::NotFound);
        },
    };
    match pwhash::verify(user.hash.as_str(), incoming.password.as_str()) {
        Ok(_) => Ok(user.id),
        Err(e) => Err(e),
    }
}

} // verus!
