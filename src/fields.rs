use vstd::prelude::*;
use vstd::string::*;

verus! {

/// The largest number of characters a title may hold.
pub const TITLE_MAX_CHARS: usize = 50;

/// The largest number of characters a description may hold.
pub const DESCRIPTION_MAX_CHARS: usize = 3000;

/// A title is valid when it holds between 1 and 50 characters.
pub open spec fn valid_title(s: Seq<char>) -> bool {
    1 <= s.len() <= TITLE_MAX_CHARS
}

/// A description is valid when it holds at most 3000 characters.
pub open spec fn valid_description(s: Seq<char>) -> bool {
    s.len() <= DESCRIPTION_MAX_CHARS
}

/// Why a value was refused at construction, as a human-readable message.
#[derive(PartialEq, Debug, Clone)]
pub struct ValidationError(String);

impl View for ValidationError {
    type V = Seq<char>;

    closed spec fn view(&self) -> Seq<char> {
        self.0@
    }
}

impl ValidationError {
    /// The message that explains the failure.
    pub fn message(&self) -> (r: &str)
        ensures
            r@ == self@,
    {
        self.0.as_str()
    }
}

/// A ticket title: a string of 1 to 50 characters.
#[derive(Debug, PartialEq)]
pub struct TicketTitle(String);

impl Clone for TicketTitle {
    fn clone(&self) -> (r: Self)
        ensures
            r == *self,
    {
        proof {
            use_type_invariant(self);
        }
        TicketTitle(self.0.clone())
    }
}

impl View for TicketTitle {
    type V = Seq<char>;

    closed spec fn view(&self) -> Seq<char> {
        self.0@
    }
}

impl TicketTitle {
    #[verifier::type_invariant]
    spec fn inv(&self) -> bool {
        valid_title(self.0@)
    }

    /// Builds a title; fails when `title` is empty or longer than 50 characters.
    pub fn new(title: String) -> (r: Result<Self, ValidationError>)
        ensures
            r is Ok <==> valid_title(title@),
            r matches Ok(t) ==> t@ == title@,
            title@.len() == 0 ==> (r matches Err(e) && e@ == "Title cannot be empty!"@),
            title@.len() > TITLE_MAX_CHARS ==> (r matches Err(e) && e@
                == "A title cannot be longer than 50 characters!"@),
    {
        let n = title.as_str().unicode_len();
        if n == 0 {
            return Err(ValidationError(String::from_str("Title cannot be empty!")));
        }
        if n > TITLE_MAX_CHARS {
            return Err(
                ValidationError(String::from_str("A title cannot be longer than 50 characters!")),
            );
        }
        Ok(Self(title))
    }

    /// The characters of the title.
    pub fn as_str(&self) -> (r: &str)
        ensures
            r@ == self@,
            valid_title(r@),
    {
        proof {
            use_type_invariant(self);
        }
        self.0.as_str()
    }

}

/// A ticket description: a string of at most 3000 characters, possibly empty.
#[derive(Debug, PartialEq)]
pub struct TicketDescription(String);

impl Clone for TicketDescription {
    fn clone(&self) -> (r: Self)
        ensures
            r == *self,
    {
        proof {
            use_type_invariant(self);
        }
        TicketDescription(self.0.clone())
    }
}

impl View for TicketDescription {
    type V = Seq<char>;

    closed spec fn view(&self) -> Seq<char> {
        self.0@
    }
}

impl TicketDescription {
    #[verifier::type_invariant]
    spec fn inv(&self) -> bool {
        valid_description(self.0@)
    }

    /// Builds a description; fails when `description` is longer than 3000 characters.
    pub fn new(description: String) -> (r: Result<Self, ValidationError>)
        ensures
            r is Ok <==> valid_description(description@),
            r matches Ok(d) ==> d@ == description@,
            r matches Err(e) ==> e@ == "A description cannot be longer than 3000 characters!"@,
    {
        let n = description.as_str().unicode_len();
        if n > DESCRIPTION_MAX_CHARS {
            Err(
                ValidationError(
                    String::from_str("A description cannot be longer than 3000 characters!"),
                ),
            )
        } else {
            Ok(Self(description))
        }
    }

    /// The characters of the description.
    pub fn as_str(&self) -> (r: &str)
        ensures
            r@ == self@,
            valid_description(r@),
    {
        proof {
            use_type_invariant(self);
        }
        self.0.as_str()
    }

}

} // verus!
