use vstd::prelude::*;
use crate::captcha::{FakeCaptchaService, ValidationInput};
use crate::handler::captcha_passes;
use crate::password::{
    argon2_accepts, hash_password, validate_password, verify_password, MIN_PASSWORD_BYTES,
};

verus! {

/// A user account: its name and the argon2 hash of its password.
#[derive(Debug)]
pub struct Account {
    pub username: String,
    pub hashed_password: String,
}

/// Why a signup or a login was refused.
#[derive(Clone, Copy, Debug, PartialEq, Eq, Structural)]
pub enum AccountError {
    InvalidCaptcha,
    PasswordTooShort,
    UserExists,
    InvalidCredentials,
    InternalError,
}

impl AccountError {
    /// The message shown to a client for this failure.
    pub fn message(&self) -> (r: String)
        ensures
            r@ == self.message_text()@,
    {
        match self {
            AccountError::InvalidCaptcha => String::from_str("invalid captcha"),
            AccountError::PasswordTooShort => String::from_str("password too short"),
            AccountError::UserExists => String::from_str("user already exists"),
            AccountError::InvalidCredentials => String::from_str("invalid username or password"),
            AccountError::InternalError => String::from_str("internal server error"),
        }
    }

    pub open spec fn message_text(&self) -> &'static str {
        match self {
            AccountError::InvalidCaptcha => "invalid captcha",
            AccountError::PasswordTooShort => "password too short",
            AccountError::UserExists => "user already exists",
            AccountError::InvalidCredentials => "invalid username or password",
            AccountError::InternalError => "internal server error",
        }
    }
}

/// Whether some entry of `accounts` is named `name`.
pub open spec fn has_account(accounts: Seq<(Seq<char>, Seq<char>)>, name: Seq<char>) -> bool {
    exists|i: int| 0 <= i < accounts.len() && (#[trigger] accounts[i]).0 == name
}

/// Whether `password` opens the account named `name` among `accounts`.
pub open spec fn password_opens(
    accounts: Seq<(Seq<char>, Seq<char>)>,
    name: Seq<char>,
    password: Seq<char>,
) -> bool {
    exists|i: int|
        0 <= i < accounts.len() && (#[trigger] accounts[i]).0 == name && argon2_accepts(
            accounts[i].1,
            password,
        )
}

/// The user accounts, each name at most once.
#[derive(Debug)]
pub struct AccountStore {
    accounts: Vec<Account>,
}

impl AccountStore {
    /// Each account's name and password hash, in the order of signup.
    pub closed spec fn view(&self) -> Seq<(Seq<char>, Seq<char>)> {
        self.accounts@.map_values(|a: Account| (a.username@, a.hashed_password@))
    }

    #[verifier::type_invariant]
    closed spec fn names_unique(self) -> bool {
        forall|i: int, j: int|
            0 <= i < j < self.accounts@.len() ==> self.accounts@[i].username@
                != self.accounts@[j].username@
    }

    pub fn new() -> (r: Self)
        ensures
            r@ == Seq::<(Seq<char>, Seq<char>)>::empty(),
    {
        let r = AccountStore { accounts: Vec::new() };
        assert(r@ =~= Seq::<(Seq<char>, Seq<char>)>::empty());
        r
    }

    /// How many accounts there are.
    pub fn len(&self) -> (r: usize)
        ensures
            r == self@.len(),
    {
        self.accounts.len()
    }

    /// The position of the account named `name`, if there is one.
    fn find(&self, name: &String) -> (r: Option<usize>)
        ensures
            r matches Some(i) ==> i < self@.len() && self@[i as int].0 == name@,
            r is None ==> !has_account(self@, name@),
    {
        let mut i: usize = 0;
        while i < self.accounts.len()
            invariant
                0 <= i <= self.accounts@.len(),
                forall|j: int| 0 <= j < i ==> self@[j].0 != name@,
            decreases self.accounts@.len() - i,
        {
            if self.accounts[i].username == *name {
                return Some(i);
            }
            i += 1;
        }
        None
    }

    /// Whether `password` opens the account named `username`.
    pub fn verify_password(&self, username: &str, password: &str) -> (r: bool)
        ensures
            r == password_opens(self@, username@, password@),
    {
        proof {
            use_type_invariant(self);
        }
        let name = String::from_str(username);
        match self.find(&name) {
            Some(i) => {
                let r = verify_password(self.accounts[i].hashed_password.as_str(), password);
                proof {
                    if password_opens(self@, username@, password@) {
                        let k = choose|k: int|
                            0 <= k < self@.len() && (#[trigger] self@[k]).0 == username@
                                && argon2_accepts(self@[k].1, password@);
                        if k != i as int {
                            if k < i {
                                assert(self.accounts@[k].username@ != self.accounts@[i as int].username@);
                            } else {
                                assert(self.accounts@[i as int].username@ != self.accounts@[k].username@);
                            }
                        }
                    }
                }
                r
            },
            None => false,
        }
    }

    /// Signs a user up: the captcha is checked (and used up) first, then the
    /// password's length in bytes; the password is hashed, and the account
    /// added unless the name is taken.
    pub fn signup(
        &mut self,
        username: String,
        password: &str,
        captcha: ValidationInput,
        captcha_service: &mut FakeCaptchaService,
    ) -> (r: Result<(), AccountError>)
        ensures
            final(captcha_service)@ == old(captcha_service)@.remove(captcha.id),
            !captcha_passes(old(captcha_service)@, captcha.id, captcha.answer@) ==> r == Err::<
                (),
                AccountError,
            >(AccountError::InvalidCaptcha),
            captcha_passes(old(captcha_service)@, captcha.id, captcha.answer@) && password.len()
                < MIN_PASSWORD_BYTES ==> r == Err::<(), AccountError>(AccountError::PasswordTooShort),
            r is Ok ==> captcha_passes(old(captcha_service)@, captcha.id, captcha.answer@)
                && password.len() >= MIN_PASSWORD_BYTES && !has_account(old(self)@, username@),
            r is Ok ==> final(self)@.len() == old(self)@.len() + 1 && final(self)@.drop_last()
                == old(self)@ && final(self)@.last().0 == username@,
            captcha_passes(old(captcha_service)@, captcha.id, captcha.answer@) && password.len()
                >= MIN_PASSWORD_BYTES && r != Err::<(), AccountError>(AccountError::InternalError)
                ==> (r is Ok <==> !has_account(old(self)@, username@)) && (r is Err ==> r == Err::<
                (),
                AccountError,
            >(AccountError::UserExists)),
            r is Err ==> final(self)@ == old(self)@,
    {
        proof {
            use_type_invariant(&*self);
        }
        if captcha_service.validate(captcha).is_err() {
            return Err(AccountError::InvalidCaptcha);
        }
        if validate_password(password).is_err() {
            return Err(AccountError::PasswordTooShort);
        }
        let hashed_password = match hash_password(password) {
            Ok(h) => h,
            Err(_) => {
                return Err(AccountError::InternalError);
            },
        };
        if self.find(&username).is_some() {
            return Err(AccountError::UserExists);
        }
        let ghost before = self@;
        let ghost old_accounts = self.accounts@;
        let ghost name = username@;
        proof {
            assert forall|i: int| 0 <= i < old_accounts.len() implies old_accounts[i].username@
                != name by {
                assert(before[i].0 == old_accounts[i].username@);
            }
        }
        let mut accounts = Vec::new();
        std::mem::swap(&mut accounts, &mut self.accounts);
        accounts.push(Account { username, hashed_password });
        assert(accounts@.drop_last() =~= old_accounts);
        *self = AccountStore { accounts };
        assert(self@.drop_last() =~= before);
        Ok(())
    }

    /// Logs a user in: the captcha is checked (and used up) first, then the
    /// password against the account's hash.
    pub fn login(
        &self,
        username: &str,
        password: &str,
        captcha: ValidationInput,
        captcha_service: &mut FakeCaptchaService,
    ) -> (r: Result<(), AccountError>)
        ensures
            final(captcha_service)@ == old(captcha_service)@.remove(captcha.id),
            !captcha_passes(old(captcha_service)@, captcha.id, captcha.answer@) ==> r == Err::<
                (),
                AccountError,
            >(AccountError::InvalidCaptcha),
            captcha_passes(old(captcha_service)@, captcha.id, captcha.answer@) ==> r == (
            if password_opens(self@, username@, password@) {
                Ok::<(), AccountError>(())
            } else {
                Err::<(), AccountError>(AccountError::InvalidCredentials)
            }),
    {
        if captcha_service.validate(captcha).is_err() {
            return Err(AccountError::InvalidCaptcha);
        }
        if self.verify_password(username, password) {
            Ok(())
        } else {
            Err(AccountError::InvalidCredentials)
        }
    }
}

} // verus!
