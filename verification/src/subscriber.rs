//! Who receives what a subscription produces.

use crate::result::Delivery;
use vstd::prelude::*;

verus! {

/// The receiving end of a subscription. Both calls return at once; what the
/// receiver does with the text is its own affair. A kind of receiver may say
/// what it promises of each call; one that says nothing promises nothing.
pub trait QuerySubscriber: Send + Sync {
    /// What this subscriber promises of a call of `on_update` with `value`.
    open spec fn took_update(&self, value: String) -> bool {
        true
    }

    /// What this subscriber promises of a call of `on_error` with `message`
    /// and `value`.
    open spec fn took_error(&self, message: String, value: Option<String>) -> bool {
        true
    }

    /// Called with the JSON text of each new value.
    fn on_update(&self, value: String)
        ensures
            self.took_update(value),
    ;

    /// Called with the message of each error, and with the JSON text of its
    /// payload where it has one.
    fn on_error(&self, message: String, value: Option<String>)
        ensures
            self.took_error(message, value),
    ;
}

/// A subscriber made of two plain callbacks, run on the spot.
pub struct CallbackSubscriber<U, E> where
    U: Fn(String) + Send + Sync,
    E: Fn(String, Option<String>) + Send + Sync,
 {
    on_update: U,
    on_error: E,
}

impl<U, E> CallbackSubscriber<U, E> where
    U: Fn(String) + Send + Sync,
    E: Fn(String, Option<String>) + Send + Sync,
 {
    /// Both callbacks may be called with any text.
    #[verifier::type_invariant]
    spec fn callable(self) -> bool {
        &&& forall|value: String| call_requires(self.on_update, (value,))
        &&& forall|message: String, value: Option<String>|
            call_requires(self.on_error, (message, value))
    }

    /// The callback that receives updates.
    pub closed spec fn update_callback(self) -> U {
        self.on_update
    }

    /// The callback that receives errors.
    pub closed spec fn error_callback(self) -> E {
        self.on_error
    }

    /// A subscriber that hands updates to `on_update` and errors to
    /// `on_error`. Both must accept every text.
    pub fn new(on_update: U, on_error: E) -> (subscriber: Self)
        requires
            forall|value: String| call_requires(on_update, (value,)),
            forall|message: String, value: Option<String>|
                call_requires(on_error, (message, value)),
        ensures
            subscriber.update_callback() == on_update,
            subscriber.error_callback() == on_error,
    {
        CallbackSubscriber { on_update, on_error }
    }
}

impl<U, E> QuerySubscriber for CallbackSubscriber<U, E> where
    U: Fn(String) + Send + Sync,
    E: Fn(String, Option<String>) + Send + Sync,
 {
    /// The update callback has run on `value` and returned.
    open spec fn took_update(&self, value: String) -> bool {
        call_ensures(self.update_callback(), (value,), ())
    }

    /// The error callback has run on `message` and `value` and returned.
    open spec fn took_error(&self, message: String, value: Option<String>) -> bool {
        call_ensures(self.error_callback(), (message, value), ())
    }

    fn on_update(&self, value: String) {
        proof {
            use_type_invariant(self);
        }
        (self.on_update)(value);
    }

    fn on_error(&self, message: String, value: Option<String>) {
        proof {
            use_type_invariant(self);
        }
        (self.on_error)(message, value);
    }
}

/// Makes the one subscriber call that `delivery` stands for: `on_update` for
/// an update, `on_error` for an error.
pub fn dispatch<S: QuerySubscriber + ?Sized>(subscriber: &S, delivery: Delivery)
    ensures
        match delivery {
            Delivery::Update { value } => subscriber.took_update(value),
            Delivery::Error { message, payload } => subscriber.took_error(message, payload),
        },
{
    match delivery {
        Delivery::Update { value } => subscriber.on_update(value),
        Delivery::Error { message, payload } => subscriber.on_error(message, payload),
    }
}

} // verus!
