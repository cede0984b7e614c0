use vstd::prelude::*;
use dashmap::DashMap;
use crate::auth::name_key;
use crate::domain::{ConversationId, UserId};

verus! {

/// Why the receivers of a message could not be found.
#[derive(Clone, Copy, Debug, PartialEq, Eq, Structural)]
pub enum UserServiceError {
    /// The sender is not a known user.
    UnknownUser,
    /// No user has this index.
    UnknownIndex(i32),
    /// The user with this index has no receivers.
    NoReceivers(i32),
}

/// The entries of a map from a user's index to the user's key.
pub uninterp spec fn index_entries(m: DashMap<i32, u128>) -> Map<i32, u128>;

/// The entries of a map from a user's key to the user's index.
pub uninterp spec fn key_entries(m: DashMap<u128, i32>) -> Map<u128, i32>;

/// Relies on `DashMap::new`: a new map holds no entry.
#[verifier::external_body]
fn new_index_map() -> (r: DashMap<i32, u128>)
    ensures
        forall|k: i32| !index_entries(r).contains_key(k),
{
    DashMap::new()
}

/// Relies on `DashMap::new`: a new map holds no entry.
#[verifier::external_body]
fn new_key_map() -> (r: DashMap<u128, i32>)
    ensures
        forall|k: u128| !key_entries(r).contains_key(k),
{
    DashMap::new()
}

/// Relies on `DashMap::insert`: afterwards the key maps to the value and other
/// keys keep theirs.
#[verifier::external_body]
fn index_map_insert(m: &mut DashMap<i32, u128>, key: i32, value: u128)
    ensures
        index_entries(*final(m)) == index_entries(*old(m)).insert(key, value),
{
    m.insert(key, value);
}

/// Relies on `DashMap::insert`: afterwards the key maps to the value and other
/// keys keep theirs.
#[verifier::external_body]
fn key_map_insert(m: &mut DashMap<u128, i32>, key: u128, value: i32)
    ensures
        key_entries(*final(m)) == key_entries(*old(m)).insert(key, value),
{
    m.insert(key, value);
}

/// Relies on `DashMap::get`: the value under the key, if there is one.
#[verifier::external_body]
fn index_map_get(m: &DashMap<i32, u128>, key: i32) -> (r: Option<u128>)
    ensures
        r == (if index_entries(*m).contains_key(key) {
            Some(index_entries(*m)[key])
        } else {
            None::<u128>
        }),
{
    m.get(&key).map(|entry| *entry.value())
}

/// Relies on `DashMap::get`: the value under the key, if there is one.
#[verifier::external_body]
fn key_map_get(m: &DashMap<u128, i32>, key: u128) -> (r: Option<i32>)
    ensures
        r == (if key_entries(*m).contains_key(key) {
            Some(key_entries(*m)[key])
        } else {
            None::<i32>
        }),
{
    m.get(&key).map(|entry| *entry.value())
}

/// How many test users the fake backend knows.
pub const TEST_USER_COUNT: i32 = 10;

/// The name of the test user with index `i`, for `i` below ten.
pub open spec fn test_user_name(i: int) -> Seq<char> {
    "testuser"@ + "0123456789"@.subrange(i, i + 1)
}

/// The indices of the users that receive what the user with index `index`
/// sends: the first two test users write to each other, the third to both.
pub open spec fn receiver_indices(index: i32) -> Option<Seq<i32>> {
    if index == 0 {
        Some(seq![1i32])
    } else if index == 1 {
        Some(seq![0i32])
    } else if index == 2 {
        Some(seq![0i32, 1i32])
    } else {
        None
    }
}

/// A user backend for development, with ten test users.
pub struct FakeUserService {
    users: DashMap<i32, u128>,
    indices: DashMap<u128, i32>,
}

impl FakeUserService {
    /// Each user's index, mapped to the user's key.
    pub closed spec fn users(&self) -> Map<i32, u128> {
        index_entries(self.users)
    }

    /// Each user's key, mapped to the user's index.
    pub closed spec fn indices(&self) -> Map<u128, i32> {
        key_entries(self.indices)
    }

    /// The two maps agree: an index found for a key leads back to that key,
    /// and every user's key has an index.
    #[verifier::type_invariant]
    pub closed spec fn wf(self) -> bool {
        &&& forall|k: u128|
            #[trigger] self.indices().contains_key(k) ==> self.users().contains_key(
                self.indices()[k],
            ) && self.users()[self.indices()[k]] == k
        &&& forall|i: i32|
            #[trigger] self.users().contains_key(i) ==> self.indices().contains_key(self.users()[i])
        &&& forall|i: i32| 0 <= i < TEST_USER_COUNT ==> #[trigger] self.users().contains_key(i)
    }

    /// The service with the test users `testuser0` to `testuser9`, whose keys
    /// are derived from their names.
    pub fn new() -> (r: Self)
        ensures
            forall|i: i32| #[trigger]
                r.users().contains_key(i) <==> 0 <= i < TEST_USER_COUNT,
            forall|i: i32|
                0 <= i < TEST_USER_COUNT ==> #[trigger] r.users()[i] == name_key(
                    test_user_name(i as int),
                ),
    {
        let mut users = new_index_map();
        let mut indices = new_key_map();
        let digits = "0123456789";
        let mut i: i32 = 0;
        while i < TEST_USER_COUNT
            invariant
                0 <= i <= TEST_USER_COUNT,
                digits@ == "0123456789"@,
                forall|j: i32| #[trigger]
                    index_entries(users).contains_key(j) <==> 0 <= j < i,
                forall|j: i32|
                    0 <= j < i ==> #[trigger] index_entries(users)[j] == name_key(
                        test_user_name(j as int),
                    ),
                forall|k: u128|
                    #[trigger] key_entries(indices).contains_key(k) ==> index_entries(
                        users,
                    ).contains_key(key_entries(indices)[k]) && index_entries(users)[key_entries(
                        indices,
                    )[k]] == k,
                forall|j: i32|
                    #[trigger] index_entries(users).contains_key(j) ==> key_entries(
                        indices,
                    ).contains_key(index_entries(users)[j]),
            decreases TEST_USER_COUNT - i,
        {
            proof {
                reveal_strlit("0123456789");
            }
            let mut name = String::from_str("testuser");
            name.append(digits.substring_char(i as usize, i as usize + 1));
            let key = crate::auth::get_fake_id(name.as_str()).0;
            index_map_insert(&mut users, i, key);
            key_map_insert(&mut indices, key, i);
            i += 1;
        }
        FakeUserService { users, indices }
    }

    fn get_user_id(&self, index: i32) -> (r: Result<UserId, UserServiceError>)
        ensures
            self.users().contains_key(index) ==> r == Ok::<UserId, UserServiceError>(
                UserId(self.users()[index]),
            ),
            !self.users().contains_key(index) ==> r == Err::<UserId, UserServiceError>(
                UserServiceError::UnknownIndex(index),
            ),
    {
        match index_map_get(&self.users, index) {
            Some(key) => Ok(UserId(key)),
            None => Err(UserServiceError::UnknownIndex(index)),
        }
    }

    fn get_index(&self, user_id: &UserId) -> (r: Result<i32, UserServiceError>)
        ensures
            self.indices().contains_key(user_id.0) ==> r == Ok::<i32, UserServiceError>(
                self.indices()[user_id.0],
            ),
            !self.indices().contains_key(user_id.0) ==> r == Err::<i32, UserServiceError>(
                UserServiceError::UnknownUser,
            ),
    {
        match key_map_get(&self.indices, user_id.0) {
            Some(index) => Ok(index),
            None => Err(UserServiceError::UnknownUser),
        }
    }

    /// The users that receive what `user_id` sends; the conversation does not
    /// narrow them in this backend.
    pub fn get_receiver(&self, user_id: &UserId, _conversation_id: &ConversationId) -> (r: Result<
        Vec<UserId>,
        UserServiceError,
    >)
        ensures
            !self.indices().contains_key(user_id.0) ==> r == Err::<Vec<UserId>, UserServiceError>(
                UserServiceError::UnknownUser,
            ),
            self.indices().contains_key(user_id.0) ==> match receiver_indices(
                self.indices()[user_id.0],
            ) {
                Some(js) => r matches Ok(v) && v@ == js.map_values(|j: i32| UserId(self.users()[j])),
                None => r == Err::<Vec<UserId>, UserServiceError>(
                    UserServiceError::NoReceivers(self.indices()[user_id.0]),
                ),
            },
    {
        proof {
            use_type_invariant(self);
        }
        let index = match self.get_index(user_id) {
            Ok(index) => index,
            Err(e) => {
                return Err(e);
            },
        };
        if index == 0 {
            let first = match self.get_user_id(1) {
                Ok(id) => id,
                Err(e) => {
                    return Err(e);
                },
            };
            let v = vec![first];
            assert(v@ =~= seq![1i32].map_values(|j: i32| UserId(self.users()[j])));
            Ok(v)
        } else if index == 1 {
            let first = match self.get_user_id(0) {
                Ok(id) => id,
                Err(e) => {
                    return Err(e);
                },
            };
            let v = vec![first];
            assert(v@ =~= seq![0i32].map_values(|j: i32| UserId(self.users()[j])));
            Ok(v)
        } else if index == 2 {
            let first = match self.get_user_id(0) {
                Ok(id) => id,
                Err(e) => {
                    return Err(e);
                },
            };
            let second = match self.get_user_id(1) {
                Ok(id) => id,
                Err(e) => {
                    return Err(e);
                },
            };
            let v = vec![first, second];
            assert(v@ =~= seq![0i32, 1i32].map_values(|j: i32| UserId(self.users()[j])));
            Ok(v)
        } else {
            Err(UserServiceError::NoReceivers(index))
        }
    }
}

} // verus!
