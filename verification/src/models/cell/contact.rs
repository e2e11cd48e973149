use vstd::prelude::*;
use vstd::string::StringExecFns;

verus! {

/// Represents a *Contact Option* for a cell of a `CONTACT` or
/// `MULTI_CONTACT` column, as it comes back from the service.
///
/// Mainly used with the `Cell::contacts` method, for example to more
/// easily retrieve the contact details (such as a list of emails) from a
/// `CONTACT` or `MULTI_CONTACT` cell.
#[derive(Debug, Clone)]
pub struct ContactOwned {
    /// A parsable email address.
    pub email: String,
    /// Can be a user's name, display name, or free text.
    pub name: Option<String>,
}

/// Represents a *Contact Option* to send for a `CONTACT` or a
/// `MULTI_CONTACT` column.
#[derive(Debug, Clone)]
pub struct Contact {
    /// A parsable email address.
    pub email: String,
    /// Can be a user's name, display name, or free text.
    pub name: Option<String>,
}

impl Contact {
    /// Create a new `Contact` from an *email address*.
    pub fn with_email(email: &str) -> (r: Self)
        ensures
            r.email@ == email@,
            r.name is None,
    {
        Self { email: email.to_owned(), name: None }
    }

    /// Fluent setter for the `email` attribute.
    pub fn email(self, email: &str) -> (r: Self)
        ensures
            r.email@ == email@,
            r.name == self.name,
    {
        Self { email: email.to_owned(), name: self.name }
    }

    /// Fluent setter for the `name` attribute.
    pub fn name(self, name: &str) -> (r: Self)
        ensures
            r.email == self.email,
            r.name matches Some(n) && n@ == name@,
    {
        Self { email: self.email, name: Some(name.to_owned()) }
    }
}

/// The [`name-addr`] rendering of one contact: `display-name <addr>`, or
/// the bare address when the contact has no name.
///
/// [`name-addr`]: https://www.rfc-editor.org/rfc/rfc5322#section-3.4
pub open spec fn spec_name_addr(c: ContactOwned) -> Seq<char> {
    match c.name {
        Some(n) => n@ + " <"@ + c.email@ + ">"@,
        None => c.email@,
    }
}

/// The addresses of a contact list joined with `", "`.
pub open spec fn spec_addrs_str(cs: Seq<ContactOwned>) -> Seq<char>
    decreases cs.len(),
{
    if cs.len() == 0 {
        Seq::<char>::empty()
    } else if cs.len() == 1 {
        cs[0].email@
    } else {
        spec_addrs_str(cs.drop_last()) + ", "@ + cs.last().email@
    }
}

/// Helper trait to retrieve names and emails from a list of contacts.
pub trait ContactEmailAddrs {
    /// Returns a list of `addr` values.
    fn addrs(&self) -> Vec<String>;

    /// Returns a comma-separated list of `addr` values.
    fn addrs_str(&self) -> String;

    /// Returns a list of `name-addr` values: `display-name <addr>`, or
    /// the bare address for a contact without a name.
    fn name_addrs(&self) -> Vec<String>;
}

impl ContactEmailAddrs for Vec<ContactOwned> {
    #[verifier::loop_isolation(false)]
    fn addrs(&self) -> (r: Vec<String>)
        ensures
            r@.len() == self@.len(),
            forall|i: int| 0 <= i < r@.len() ==> r@[i]@ == self@[i].email@,
    {
        let mut out: Vec<String> = Vec::new();
        let mut i: usize = 0;
        while i < self.len()
            invariant
                i <= self@.len(),
                out@.len() == i,
                forall|j: int| 0 <= j < i ==> out@[j]@ == self@[j].email@,
            decreases self@.len() - i,
        {
            out.push(self[i].email.clone());
            i = i + 1;
        }
        out
    }

    #[verifier::loop_isolation(false)]
    fn addrs_str(&self) -> (r: String)
        ensures
            r@ == spec_addrs_str(self@),
    {
        let mut out: String = String::new();
        let mut i: usize = 0;
        while i < self.len()
            invariant
                i <= self@.len(),
                out@ == spec_addrs_str(self@.take(i as int)),
            decreases self@.len() - i,
        {
            if i > 0 {
                out.append(", ");
            }
            out.append(self[i].email.as_str());
            proof {
                assert(self@.take(i as int + 1).drop_last() =~= self@.take(i as int));
                assert(self@.take(i as int + 1).last() == self@[i as int]);
            }
            i = i + 1;
        }
        proof {
            assert(self@.take(self@.len() as int) =~= self@);
        }
        out
    }

    #[verifier::loop_isolation(false)]
    fn name_addrs(&self) -> (r: Vec<String>)
        ensures
            r@.len() == self@.len(),
            forall|i: int| 0 <= i < r@.len() ==> r@[i]@ == spec_name_addr(self@[i]),
    {
        let mut out: Vec<String> = Vec::new();
        let mut i: usize = 0;
        while i < self.len()
            invariant
                i <= self@.len(),
                out@.len() == i,
                forall|j: int| 0 <= j < i ==> out@[j]@ == spec_name_addr(self@[j]),
            decreases self@.len() - i,
        {
            let contact = &self[i];
            let entry: String = match contact.name {
                Some(ref name) => {
                    let mut s: String = name.clone();
                    s.append(" <");
                    s.append(contact.email.as_str());
                    s.append(">");
                    s
                },
                None => contact.email.clone(),
            };
            out.push(entry);
            i = i + 1;
        }
        out
    }
}

} // verus!
