use vstd::prelude::*;
use crate::auth::{after_prefix, strip_prefix};
use crate::error::error_message;

verus! {

/// Why a captcha step failed.
#[derive(Debug)]
pub enum CaptchaError {
    Mismatch,
    NotFound,
    InternalError(anyhow::Error),
}

/// What a client answers to a captcha.
#[derive(Debug)]
pub struct ValidationInput {
    pub id: u128,
    pub answer: String,
}

/// A captcha handed to a client: its id and its picture, base64-encoded JPEG.
#[derive(Debug)]
pub struct CaptchaResult {
    pub id: u128,
    pub image_base64: String,
}

/// Relies on `captcha_rs::CaptchaBuilder` (six characters, 100 by 50 pixels,
/// dark mode, complexity 1) and `Captcha::to_base64`: a random text and its
/// picture as a data URL.
#[verifier::external_body]
fn draw_captcha() -> (r: (String, String)) {
    let captcha = captcha_rs::CaptchaBuilder::new()
        .length(6)
        .width(100)
        .height(50)
        .dark_mode(true)
        .complexity(1)
        .build();
    (captcha.text.clone(), captcha.to_base64())
}

/// Relies on `uuid::Uuid::new_v4` and `Uuid::as_u128`: a random id.
#[verifier::external_body]
fn random_id() -> (r: u128) {
    uuid::Uuid::new_v4().as_u128()
}

/// The base64 payload of a JPEG data URL, if `data_url` is one.
pub fn jpeg_data_url_payload(data_url: &str) -> (r: Option<&str>)
    ensures
        r is Some <==> after_prefix(data_url@, "data:image/jpeg;base64,"@) is Some,
        r matches Some(p) ==> p@ == after_prefix(data_url@, "data:image/jpeg;base64,"@)->Some_0,
{
    strip_prefix(data_url, "data:image/jpeg;base64,")
}

/// Whether two characters are equal once ASCII letters are taken without case.
pub open spec fn same_ignoring_ascii_case(a: char, b: char) -> bool {
    ||| a == b
    ||| ('A' <= a <= 'Z' && a as u32 + 32 == b as u32)
    ||| ('A' <= b <= 'Z' && b as u32 + 32 == a as u32)
}

/// Whether two texts are equal once ASCII letters are taken without case.
pub open spec fn eq_ignoring_ascii_case(a: Seq<char>, b: Seq<char>) -> bool {
    a.len() == b.len() && forall|i: int| 0 <= i < a.len() ==> same_ignoring_ascii_case(a[i], b[i])
}

fn same_char_ignoring_ascii_case(a: char, b: char) -> (r: bool)
    ensures
        r == same_ignoring_ascii_case(a, b),
{
    let x = a as u32;
    let y = b as u32;
    x == y || (65 <= x && x <= 90 && x + 32 == y) || (65 <= y && y <= 90 && y + 32 == x)
}

/// Whether `answer` is `expected`, ASCII letters taken without case.
pub fn answer_matches(expected: &str, answer: &str) -> (r: bool)
    ensures
        r == eq_ignoring_ascii_case(expected@, answer@),
{
    let n = expected.unicode_len();
    if n != answer.unicode_len() {
        return false;
    }
    let mut i: usize = 0;
    while i < n
        invariant
            n == expected@.len(),
            n == answer@.len(),
            0 <= i <= n,
            forall|j: int| 0 <= j < i ==> same_ignoring_ascii_case(expected@[j], answer@[j]),
        decreases n - i,
    {
        if !same_char_ignoring_ascii_case(expected.get_char(i), answer.get_char(i)) {
            return false;
        }
        i += 1;
    }
    true
}

/// A captcha backend that keeps the expected answers in memory. Each captcha
/// can be answered once: validation takes it out, right or wrong.
#[derive(Debug)]
pub struct FakeCaptchaService {
    answers: std::collections::HashMap<u128, String>,
}

impl FakeCaptchaService {
    /// Each pending captcha's id, mapped to its expected answer.
    pub closed spec fn view(&self) -> Map<u128, Seq<char>> {
        Map::new(|id: u128| self.answers@.contains_key(id), |id: u128| self.answers@[id]@)
    }

    pub fn new() -> (r: Self)
        ensures
            r@ == Map::<u128, Seq<char>>::empty(),
    {
        let r = FakeCaptchaService { answers: std::collections::HashMap::new() };
        assert(r@ =~= Map::<u128, Seq<char>>::empty());
        r
    }

    /// Draws a new captcha under a fresh random id and keeps its answer; fails,
    /// keeping nothing, where the picture is not a JPEG data URL.
    pub fn generate(&mut self) -> (r: Result<CaptchaResult, CaptchaError>)
        ensures
            r is Err ==> final(self)@ == old(self)@,
            r matches Ok(c) ==> final(self)@.contains_key(c.id) && final(self)@ == old(self)@.insert(
                c.id,
                final(self)@[c.id],
            ),
    {
        let (text, data_url) = draw_captcha();
        let image_base64 = match jpeg_data_url_payload(data_url.as_str()) {
            Some(payload) => String::from_str(payload),
            None => {
                return Err(CaptchaError::InternalError(error_message("captcha picture is not a JPEG data URL")));
            },
        };
        let id = random_id();
        self.store(id, text);
        Ok(CaptchaResult { id, image_base64 })
    }

    /// Keeps `answer` as the expected answer to captcha `id`.
    pub fn store(&mut self, id: u128, answer: String)
        ensures
            final(self)@ == old(self)@.insert(id, answer@),
    {
        broadcast use vstd::std_specs::hash::group_hash_axioms;

        self.answers.insert(id, answer);
        assert(final(self)@ =~= old(self)@.insert(id, answer@));
    }

    /// Checks an answer and takes the captcha out: unknown ids are not found,
    /// answers that differ other than in ASCII case do not match.
    pub fn validate(&mut self, input: ValidationInput) -> (r: Result<(), CaptchaError>)
        ensures
            final(self)@ == old(self)@.remove(input.id),
            !old(self)@.contains_key(input.id) ==> r matches Err(CaptchaError::NotFound),
            old(self)@.contains_key(input.id) ==> (r is Ok <==> eq_ignoring_ascii_case(
                old(self)@[input.id],
                input.answer@,
            )),
            r is Err && old(self)@.contains_key(input.id) ==> r matches Err(CaptchaError::Mismatch),
    {
        broadcast use vstd::std_specs::hash::group_hash_axioms;

        let removed = self.answers.remove(&input.id);
        assert(final(self)@ =~= old(self)@.remove(input.id));
        match removed {
            Some(expected) => {
                if answer_matches(expected.as_str(), input.answer.as_str()) {
                    Ok(())
                } else {
                    Err(CaptchaError::Mismatch)
                }
            },
            None => Err(CaptchaError::NotFound),
        }
    }
}

} // verus!
