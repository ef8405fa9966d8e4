//! The aggregate of a validated name and a validated email address.

use crate::domain::error::ValidationError;
use crate::domain::subscriber_email::{is_valid_email, SubscriberEmail};
use crate::domain::subscriber_name::{is_valid_name, SubscriberName};
use vstd::prelude::*;

verus! {

/// A subscriber who may be stored. Both parts are valid by their own types;
/// the aggregate adds no rule of its own.
#[derive(Debug)]
pub struct NewSubscriber {
    pub email: SubscriberEmail,
    pub name: SubscriberName,
}

impl NewSubscriber {
    /// What [`NewSubscriber::convert`] returns for the two raw fields.
    pub open spec fn converted(name: String, email: String) -> Result<
        NewSubscriber,
        ValidationError,
    > {
        match SubscriberName::parsed(name) {
            Err(e) => Err(e),
            Ok(name) => match SubscriberEmail::parsed(email) {
                Err(e) => Err(e),
                Ok(email) => Ok(NewSubscriber { email, name }),
            },
        }
    }

    /// What [`NewSubscriber::converted`] yields: the error of the name if the
    /// name is invalid, whatever the email address; else the error of the
    /// email address if that is invalid; else the subscriber with both
    /// texts unchanged.
    pub proof fn lemma_converted(name: String, email: String)
        ensures
            !is_valid_name(name@) ==> NewSubscriber::converted(name, email) == Err::<
                NewSubscriber,
                ValidationError,
            >(ValidationError::InvalidName(name)),
            is_valid_name(name@) && !is_valid_email(email@) ==> NewSubscriber::converted(
                name,
                email,
            ) == Err::<NewSubscriber, ValidationError>(ValidationError::InvalidEmail(email)),
            is_valid_name(name@) && is_valid_email(email@) ==> (NewSubscriber::converted(
                name,
                email,
            ) matches Ok(subscriber) && subscriber.name@ == name@ && subscriber.email@
                == email@),
    {
        SubscriberName::lemma_parsed(name);
        SubscriberEmail::lemma_parsed(email);
    }

    /// Joins the outcomes of the two validations. A refused name is reported
    /// before a refused email address; one error is reported, never both.
    pub fn from_outcomes(
        name: Result<SubscriberName, ValidationError>,
        email: Result<SubscriberEmail, ValidationError>,
    ) -> (res: Result<NewSubscriber, ValidationError>)
        ensures
            name matches Err(e) ==> res == Err::<NewSubscriber, ValidationError>(e),
            name is Ok ==> (email matches Err(e) ==> res == Err::<NewSubscriber, ValidationError>(
                e,
            )),
            name matches Ok(n) ==> (email matches Ok(m) ==> res == Ok::<
                NewSubscriber,
                ValidationError,
            >(NewSubscriber { email: m, name: n })),
    {
        match name {
            Err(e) => Err(e),
            Ok(name) => match email {
                Err(e) => Err(e),
                Ok(email) => Ok(NewSubscriber { email, name }),
            },
        }
    }

    /// Converts the two raw fields of a subscription form into a subscriber.
    /// The name is validated first; the email address is looked at only when
    /// the name was accepted, so the error names the first field that failed.
    pub fn convert(name: String, email: String) -> (res: Result<NewSubscriber, ValidationError>)
        ensures
            !is_valid_name(name@) ==> (res matches Err(e) && e is InvalidName && e.input()
                == name@),
            is_valid_name(name@) && !is_valid_email(email@) ==> (res matches Err(e)
                && e is InvalidEmail && e.input() == email@),
            is_valid_name(name@) && is_valid_email(email@) ==> (res matches Ok(subscriber)
                && subscriber.name@ == name@ && subscriber.email@ == email@),
            res == NewSubscriber::converted(name, email),
    {
        let name = match SubscriberName::parse(name) {
            Ok(name) => name,
            Err(e) => return Err(e),
        };
        let email = match SubscriberEmail::parse(email) {
            Ok(email) => email,
            Err(e) => return Err(e),
        };
        Ok(NewSubscriber { email, name })
    }
}

} // verus!
