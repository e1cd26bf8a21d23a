//! The entities of the service and the store that holds them.

use vstd::prelude::*;

verus! {

#[derive(Debug)]
pub struct Restaurant {
    pub id: usize,
    pub name: String,
    pub description: String,
}

impl Clone for Restaurant {
    fn clone(&self) -> (r: Self)
        ensures
            r == *self,
    {
        Restaurant { id: self.id, name: self.name.clone(), description: self.description.clone() }
    }
}

/// A rating in the range from 0 to 5, held as the bit pattern of the
/// single-precision number that it is. The store keeps ratings and hands them
/// back; it does not compute with them.
#[derive(Debug, Clone, Copy, PartialEq, Eq, Structural)]
pub struct Rating(pub u32);

/// Review of restaurant
#[derive(Debug)]
pub struct Review {
    pub id: usize,
    pub comment: String,
    pub rating: Rating,
    pub restaurant: usize,
    pub writer: usize,
    pub image_name: Option<String>,
}

impl Clone for Review {
    fn clone(&self) -> (r: Self)
        ensures
            r == *self,
    {
        Review {
            id: self.id,
            comment: self.comment.clone(),
            rating: self.rating,
            restaurant: self.restaurant,
            writer: self.writer,
            image_name: match &self.image_name {
                Some(name) => Some(name.clone()),
                None => None,
            },
        }
    }
}

#[derive(Debug)]
pub struct User {
    pub id: usize,
    pub name: String,
    pub hash: String,
}

impl Clone for User {
    fn clone(&self) -> (r: Self)
        ensures
            r == *self,
    {
        User { id: self.id, name: self.name.clone(), hash: self.hash.clone() }
    }
}

/// The store: every restaurant, review and user, each kind in the order of
/// creation. An entity's id is its position in that order.
pub struct World {
    restaurants: Vec<Restaurant>,
    reviews: Vec<Review>,
    users: Vec<User>,
}

/// The entity with the given id among `entities`, if there is one: ids are
/// positions.
pub open spec fn lookup<T>(entities: Seq<T>, id: usize) -> Option<T> {
    if id < entities.len() {
        Some(entities[id as int])
    } else {
        None
    }
}

/// The reviews among `reviews` that are about `restaurant`, in order.
pub open spec fn reviews_of_restaurant(reviews: Seq<Review>, restaurant: usize) -> Seq<Review> {
    reviews.filter(|r: Review| r.restaurant == restaurant)
}

/// The reviews among `reviews` that `writer` wrote, in order.
pub open spec fn reviews_of_writer(reviews: Seq<Review>, writer: usize) -> Seq<Review> {
    reviews.filter(|r: Review| r.writer == writer)
}

/// The first user among `users` whose name is `name`, if there is one.
pub open spec fn first_named(users: Seq<User>, name: Seq<char>) -> Option<User>
    decreases users.len(),
{
    if users.len() == 0 {
        None
    } else if users[0].name@ == name {
        Some(users[0])
    } else {
        first_named(users.subrange(1, users.len() as int), name)
    }
}

impl World {
    pub closed spec fn restaurants(&self) -> Seq<Restaurant> {
        self.restaurants@
    }

    pub closed spec fn reviews(&self) -> Seq<Review> {
        self.reviews@
    }

    pub closed spec fn users(&self) -> Seq<User> {
        self.users@
    }

    /// Every entity's id is its position. This holds of an empty store and
    /// every operation keeps it.
    pub open spec fn wf(&self) -> bool {
        &&& forall|i: int|
            0 <= i < self.restaurants().len() ==> (#[trigger] self.restaurants()[i]).id == i
        &&& forall|i: int| 0 <= i < self.reviews().len() ==> (#[trigger] self.reviews()[i]).id == i
        &&& forall|i: int| 0 <= i < self.users().len() ==> (#[trigger] self.users()[i]).id == i
    }

    pub fn create_restaurant(&mut self, name: String, description: String) -> (id: usize)
        ensures
            id == old(self).restaurants().len(),
            final(self).restaurants() == old(self).restaurants().push(
                (Restaurant { id, name, description }),
            ),
            final(self).reviews() == old(self).reviews(),
            final(self).users() == old(self).users(),
            old(self).wf() ==> final(self).wf(),
    {
        let id = self.restaurants.len();
        self.restaurants.push(Restaurant { id, name, description });
        assert(self.reviews@ == old(self).reviews@ && self.users@ == old(self).users@);
        id
    }

    pub fn create_review(
        &mut self,
        comment: String,
        rating: Rating,
        restaurant: usize,
        writer: usize,
        image_name: Option<String>,
    ) -> (id: usize)
        ensures
            id == old(self).reviews().len(),
            final(self).reviews() == old(self).reviews().push(
                (Review { id, comment, rating, restaurant, writer, image_name }),
            ),
            final(self).restaurants() == old(self).restaurants(),
            final(self).users() == old(self).users(),
            old(self).wf() ==> final(self).wf(),
    {
        let id = self.reviews.len();
        self.reviews.push(Review { id, comment, rating, restaurant, writer, image_name });
        assert(self.restaurants@ == old(self).restaurants@ && self.users@ == old(self).users@);
        id
    }

    /// Should encapsulate hashing into this function to avoid accidental bypass
    pub fn create_user(&mut self, username: String, hash: String) -> (id: usize)
        ensures
            id == old(self).users().len(),
            final(self).users() == old(self).users().push((User { id, name: username, hash })),
            final(self).restaurants() == old(self).restaurants(),
            final(self).reviews() == old(self).reviews(),
            old(self).wf() ==> final(self).wf(),
    {
        let id = self.users.len();
        self.users.push(User { id, name: username, hash });
        assert(self.restaurants@ == old(self).restaurants@ && self.reviews@ == old(self).reviews@);
        id
    }

    pub fn all_restaurants(&self) -> (r: Vec<Restaurant>)
        ensures
            r@ == self.restaurants(),
    {
        let mut r: Vec<Restaurant> = Vec::new();
        let mut i: usize = 0;
        while i < self.restaurants.len()
            invariant
                i <= self.restaurants@.len(),
                r@ == self.restaurants@.take(i as int),
            decreases self.restaurants@.len() - i,
        {
            r.push(self.restaurants[i].clone());
            assert(self.restaurants@.take(i + 1) =~= self.restaurants@.take(i as int).push(
                self.restaurants@[i as int],
            ));
            i += 1;
        }
        assert(self.restaurants@.take(i as int) =~= self.restaurants@);
        r
    }

    pub fn find_restaurant_by_id(&self, id: usize) -> (r: Option<Restaurant>)
        ensures
            r == lookup(self.restaurants(), id),
            self.wf() ==> (r matches Some(found) ==> found.id == id),
    {
        if id < self.restaurants.len() {
            Some(self.restaurants[id].clone())
        } else {
            None
        }
    }

    pub fn find_reviews_by_restaurant(&self, restaurant: usize) -> (r: Vec<Review>)
        ensures
            r@ == reviews_of_restaurant(self.reviews(), restaurant),
    {
        let mut r: Vec<Review> = Vec::new();
        let mut i: usize = 0;
        assert(self.reviews@.take(0) =~= Seq::<Review>::empty());
        while i < self.reviews.len()
            invariant
                i <= self.reviews@.len(),
                r@ == reviews_of_restaurant(self.reviews@.take(i as int), restaurant),
            decreases self.reviews@.len() - i,
        {
            proof {
                lemma_filter_take_step(
                    self.reviews@,
                    |r: Review| r.restaurant == restaurant,
                    i as int,
                );
            }
            if self.reviews[i].restaurant == restaurant {
                r.push(self.reviews[i].clone());
            }
            i += 1;
        }
        assert(self.reviews@.take(i as int) =~= self.reviews@);
        r
    }

    pub fn find_reviews_by_user(&self, user_id: usize) -> (r: Vec<Review>)
        ensures
            r@ == reviews_of_writer(self.reviews(), user_id),
    {
        let mut r: Vec<Review> = Vec::new();
        let mut i: usize = 0;
        assert(self.reviews@.take(0) =~= Seq::<Review>::empty());
        while i < self.reviews.len()
            invariant
                i <= self.reviews@.len(),
                r@ == reviews_of_writer(self.reviews@.take(i as int), user_id),
            decreases self.reviews@.len() - i,
        {
            proof {
                lemma_filter_take_step(self.reviews@, |r: Review| r.writer == user_id, i as int);
            }
            if self.reviews[i].writer == user_id {
                r.push(self.reviews[i].clone());
            }
            i += 1;
        }
        assert(self.reviews@.take(i as int) =~= self.reviews@);
        r
    }

    pub fn get_users(&self) -> (r: Vec<User>)
        ensures
            r@ == self.users(),
    {
        let mut r: Vec<User> = Vec::new();
        let mut i: usize = 0;
        while i < self.users.len()
            invariant
                i <= self.users@.len(),
                r@ == self.users@.take(i as int),
            decreases self.users@.len() - i,
        {
            r.push(self.users[i].clone());
            assert(self.users@.take(i + 1) =~= self.users@.take(i as int).push(
                self.users@[i as int],
            ));
            i += 1;
        }
        assert(self.users@.take(i as int) =~= self.users@);
        r
    }

    pub fn find_user(&self, id: usize) -> (r: Option<User>)
        ensures
            r == lookup(self.users(), id),
            self.wf() ==> (r matches Some(found) ==> found.id == id),
    {
        if id < self.users.len() {
            Some(self.users[id].clone())
        } else {
            None
        }
    }

    pub fn find_user_by_name(&self, name: &str) -> (r: Option<User>)
        ensures
            r == first_named(self.users(), name@),
    {
        let wanted = name.to_owned();
        let mut i: usize = 0;
        while i < self.users.len()
            invariant
                i <= self.users@.len(),
                wanted@ == name@,
                forall|k: int| 0 <= k < i ==> (#[trigger] self.users@[k]).name@ != name@,
            decreases self.users@.len() - i,
        {
            if self.users[i].name == wanted {
                proof {
                    lemma_first_named(self.users@, name@, i as int);
                }
                return Some(self.users[i].clone());
            }
            i += 1;
        }
        proof {
            lemma_first_named(self.users@, name@, i as int);
        }
        None
    }
}

impl Default for World {
    fn default() -> (r: Self)
        ensures
            r.restaurants() == Seq::<Restaurant>::empty(),
            r.reviews() == Seq::<Review>::empty(),
            r.users() == Seq::<User>::empty(),
            r.wf(),
    {
        World { restaurants: Vec::new(), reviews: Vec::new(), users: Vec::new() }
    }
}

/// Filtering one element more either appends that element or changes nothing.
proof fn lemma_filter_take_step<A>(s: Seq<A>, pred: spec_fn(A) -> bool, i: int)
    requires
        0 <= i < s.len(),
    ensures
        s.take(i + 1).filter(pred) == if pred(s[i]) {
            s.take(i).filter(pred).push(s[i])
        } else {
            s.take(i).filter(pred)
        },
{
    reveal(Seq::filter);
    assert(s.take(i + 1).drop_last() =~= s.take(i));
}

/// The first user is the one before whom nobody has the name.
proof fn lemma_first_named(users: Seq<User>, name: Seq<char>, i: int)
    requires
        0 <= i <= users.len(),
        forall|k: int| 0 <= k < i ==> (#[trigger] users[k]).name@ != name,
        i < users.len() ==> users[i].name@ == name,
    ensures
        first_named(users, name) == if i < users.len() {
            Some(users[i])
        } else {
            None
        },
    decreases i,
{
    if i > 0 {
        let rest = users.subrange(1, users.len() as int);
        assert forall|k: int| 0 <= k < i - 1 implies (#[trigger] rest[k]).name@ != name by {
            assert(rest[k] == users[k + 1]);
        }
        lemma_first_named(rest, name, i - 1);
    }
}

/// The credentials that a registration or login form carries.
pub struct UserPassword {
    pub username: String,
    pub password: String,
}

/// Who a request comes from, as far as its token tells.
#[derive(Debug, Clone, Copy, PartialEq, Eq, Structural)]
pub enum AuthInfo {
    /// The request carries a valid token of the user with this id.
    Authenticated(usize),
    /// The request carries no token, or none that is valid.
    Anonymous,
}

} // verus!
