use vstd::prelude::*;
use std::sync::Arc;
use std::sync::Mutex;
use crate::error::SbioError;

verus! {

/// `std::sync::Mutex`, the lock behind which every observer lives. Nothing
/// is known of its contents.
#[verifier::external_type_specification]
#[verifier::external_body]
#[verifier::reject_recursive_types(T)]
pub struct ExMutex<T: ?Sized>(Mutex<T>);

/// What is invoked when an event arrives. The call runs on the thread that
/// notifies, with the observer's lock held: an observer that is slow delays
/// the observers after it, and the events after this one. Observers can be
/// handed to the thread that notifies them.
pub trait IObserver<T>: Send {
    /// Takes one event. An observer that cannot take it says so with an
    /// error, which is reported and keeps no other observer from its turn.
    fn update(&mut self, event: &T) -> Result<(), SbioError>;
}

/// A handle to a shared, lock-protected observer.
///
/// What the observer holds lives behind its lock and changes there, so in
/// contracts the value of a handle is the shared object itself, not what it
/// holds at some moment: two handles are equal exactly when they point to
/// the same object.
#[verifier::reject_recursive_types(T)]
pub struct Observer<T> {
    shared: Arc<Mutex<dyn IObserver<T>>>,
}

/// The handle to the object behind `shared`, with the type of the observer
/// forgotten: the conversion of an `Arc` to one of a trait object. Nothing
/// is known of the handle but what holds of every handle.
#[verifier::external_body]
fn erase<T, O: IObserver<T> + 'static>(shared: Arc<Mutex<O>>) -> (observer: Observer<T>) {
    Observer { shared }
}

/// `Arc::ptr_eq`: whether the two handles point to the same allocation,
/// which is what equality of handles means.
#[verifier::external_body]
fn same_observer<T>(a: &Observer<T>, b: &Observer<T>) -> (same: bool)
    ensures
        same == (*a == *b),
{
    Arc::ptr_eq(&a.shared, &b.shared)
}

/// `Arc::clone`: one more handle to the same allocation.
#[verifier::external_body]
fn share<T>(observer: &Observer<T>) -> (handle: Observer<T>)
    ensures
        handle == *observer,
{
    Observer { shared: Arc::clone(&observer.shared) }
}

/// `Mutex::lock`, then the observer's `update` under the lock. The result
/// is what `update` returned, or nothing where the lock could not be taken
/// and `update` was not called, which is so where an earlier holder of the
/// lock panicked.
#[verifier::external_body]
fn deliver<T>(observer: &Observer<T>, event: &T) -> (answer: Option<Result<(), SbioError>>) {
    match observer.shared.lock() {
        Ok(mut guard) => Some(guard.update(event)),
        Err(_) => None,
    }
}

/// Whether an observer took the event, given how its call ended.
pub fn has_taken(answer: Option<Result<(), SbioError>>) -> (taken: bool)
    ensures
        taken == (answer matches Some(Ok(_))),
{
    match answer {
        Some(Ok(_)) => true,
        _ => false,
    }
}

impl<T> Observer<T> {
    /// A handle to the observer behind `shared`.
    pub fn new<O: IObserver<T> + 'static>(shared: Arc<Mutex<O>>) -> (observer: Self) {
        erase(shared)
    }
}

impl<T> Clone for Observer<T> {
    fn clone(&self) -> (handle: Self)
        ensures
            handle == *self,
    {
        share(self)
    }
}

/// Whether `index` is the first place at which `observer` stands in
/// `observers`.
pub open spec fn is_first_at<T>(observers: Seq<Observer<T>>, observer: Observer<T>, index: int) -> bool {
    &&& 0 <= index < observers.len()
    &&& observers[index] == observer
    &&& forall|j: int| 0 <= j < index ==> observers[j] != observer
}

/// `observers` without the first entry that is `observer`, the others in
/// their order; `observers` itself where there is no such entry.
pub open spec fn without_first<T>(observers: Seq<Observer<T>>, observer: Observer<T>) -> Seq<Observer<T>>
    decreases observers.len(),
{
    if observers.len() == 0 {
        observers
    } else if observers[0] == observer {
        observers.drop_first()
    } else {
        seq![observers[0]] + without_first(observers.drop_first(), observer)
    }
}

/// How often `observer` stands in `observers`.
pub open spec fn occurrences<T>(observers: Seq<Observer<T>>, observer: Observer<T>) -> nat
    decreases observers.len(),
{
    if observers.len() == 0 {
        0
    } else if observers[0] == observer {
        1 + occurrences(observers.drop_first(), observer)
    } else {
        occurrences(observers.drop_first(), observer)
    }
}

/// `observers` after each of `added` was added to it, in turn.
pub open spec fn with_all<T>(observers: Seq<Observer<T>>, added: Seq<Observer<T>>) -> Seq<Observer<T>>
    decreases added.len(),
{
    if added.len() == 0 {
        observers
    } else {
        with_all(observers.push(added[0]), added.drop_first())
    }
}

/// Removing the first entry that is `observer` is removing the entry at the
/// first place where it stands.
pub proof fn lemma_without_first_at<T>(observers: Seq<Observer<T>>, observer: Observer<T>, index: int)
    requires
        is_first_at(observers, observer, index),
    ensures
        without_first(observers, observer) == observers.remove(index),
    decreases observers.len(),
{
    if index == 0 {
        assert(observers.drop_first() =~= observers.remove(0));
    } else {
        let rest = observers.drop_first();
        assert(is_first_at(rest, observer, index - 1)) by {
            assert(rest[index - 1] == observers[index]);
            assert forall|j: int| 0 <= j < index - 1 implies rest[j] != observer by {
                assert(rest[j] == observers[j + 1]);
            }
        }
        lemma_without_first_at(rest, observer, index - 1);
        assert(seq![observers[0]] + rest.remove(index - 1) =~= observers.remove(index));
    }
}

/// Adding any number of observers makes the registry longer by that number,
/// and puts them at its end in the order in which they were added. From an
/// empty registry, the size is the number of adds.
pub proof fn lemma_adds_are_counted<T>(observers: Seq<Observer<T>>, added: Seq<Observer<T>>)
    ensures
        with_all(observers, added) == observers + added,
        with_all(observers, added).len() == observers.len() + added.len(),
        with_all(Seq::<Observer<T>>::empty(), added) == added,
{
    lemma_adds_onto(observers, added);
    lemma_adds_onto(Seq::<Observer<T>>::empty(), added);
    assert(Seq::<Observer<T>>::empty() + added =~= added);
}

proof fn lemma_adds_onto<T>(observers: Seq<Observer<T>>, added: Seq<Observer<T>>)
    ensures
        with_all(observers, added) == observers + added,
    decreases added.len(),
{
    if added.len() == 0 {
        assert(observers + added =~= observers);
    } else {
        lemma_adds_onto(observers.push(added[0]), added.drop_first());
        assert(observers.push(added[0]) + added.drop_first() =~= observers + added);
    }
}

/// Removing an observer that is registered makes the registry shorter by
/// exactly one, and takes one of its occurrences away. Where it was
/// registered once, it is registered no more, and so takes no further
/// notification.
pub proof fn lemma_remove_present<T>(observers: Seq<Observer<T>>, observer: Observer<T>)
    requires
        observers.contains(observer),
    ensures
        without_first(observers, observer).len() == observers.len() - 1,
        occurrences(without_first(observers, observer), observer) == occurrences(observers, observer) - 1,
        occurrences(observers, observer) == 1 ==> !without_first(observers, observer).contains(observer),
    decreases observers.len(),
{
    let rest = observers.drop_first();
    let i = choose|i: int| 0 <= i < observers.len() && observers[i] == observer;
    if observers[0] == observer {
    } else {
        assert(rest[i - 1] == observer);
        lemma_remove_present(rest, observer);
        let kept = seq![observers[0]] + without_first(rest, observer);
        assert(kept.drop_first() =~= without_first(rest, observer));
    }
    lemma_registered_occurs(without_first(observers, observer), observer);
}

/// An observer stands in a registry exactly when it occurs there at least
/// once.
pub proof fn lemma_registered_occurs<T>(observers: Seq<Observer<T>>, observer: Observer<T>)
    ensures
        observers.contains(observer) <==> occurrences(observers, observer) > 0,
    decreases observers.len(),
{
    if observers.len() == 0 {
    } else {
        let rest = observers.drop_first();
        lemma_registered_occurs(rest, observer);
        if observers[0] == observer {
        } else {
            if observers.contains(observer) {
                let i = choose|i: int| 0 <= i < observers.len() && observers[i] == observer;
                assert(rest[i - 1] == observer);
            }
            if rest.contains(observer) {
                let i = choose|i: int| 0 <= i < rest.len() && rest[i] == observer;
                assert(observers[i + 1] == observer);
            }
        }
    }
}

/// Removing an observer that is not registered changes neither the size of
/// the registry nor the order of its entries: the registry stays as it is.
pub proof fn lemma_remove_absent<T>(observers: Seq<Observer<T>>, observer: Observer<T>)
    requires
        !observers.contains(observer),
    ensures
        without_first(observers, observer) == observers,
    decreases observers.len(),
{
    if observers.len() == 0 {
    } else {
        let rest = observers.drop_first();
        assert(observers[0] != observer);
        assert forall|i: int| 0 <= i < rest.len() implies rest[i] != observer by {
            assert(rest[i] == observers[i + 1]);
        }
        lemma_remove_absent(rest, observer);
        assert(seq![observers[0]] + rest =~= observers);
    }
}

/// A registry of observers: what an event of one kind is handed to.
pub trait ISubject<T> {
    /// The registered observers, in the order of their registration.
    spec fn observers(&self) -> Seq<Observer<T>>;

    /// Registers `observer` behind all that are registered. Nothing is
    /// checked: an observer can be registered more than once.
    fn add_observer(&mut self, observer: Observer<T>)
        ensures
            final(self).observers() == old(self).observers().push(observer),
    ;

    /// Takes the first registration of `observer` away. Where it is not
    /// registered, nothing changes and the error says so.
    fn remove_observer(&mut self, observer: Observer<T>) -> (removed: Result<(), SbioError>)
        ensures
            removed is Ok <==> old(self).observers().contains(observer),
            removed matches Err(e) ==> e == SbioError::ObserverNotFound,
            final(self).observers() == without_first(old(self).observers(), observer),
    ;

    /// Hands `data` to every registered observer, in the order of
    /// registration. An observer that cannot take it does not keep the
    /// later ones from being tried. The result tells of each, in that
    /// order, whether it took the event.
    fn notify_observers(&self, data: &T) -> (taken: Vec<bool>)
        ensures
            taken@.len() == self.observers().len(),
    ;

    /// The number of registered observers.
    fn len(&self) -> (count: usize)
        ensures
            count == self.observers().len(),
    ;
}

/// The registry of the observers of one event stream. It is not safe to
/// share between threads by itself: whoever owns it guards it.
#[verifier::reject_recursive_types(T)]
pub struct Subject<T> {
    observers: Vec<Observer<T>>,
}

impl<T> Subject<T> {
    /// The registered observers, in the order of their registration.
    pub closed spec fn view(&self) -> Seq<Observer<T>> {
        self.observers@
    }

    /// A registry without observers.
    pub fn new() -> (subject: Subject<T>)
        ensures
            subject@ == Seq::<Observer<T>>::empty(),
    {
        Subject { observers: Vec::new() }
    }

    /// The first place at which `observer` is registered.
    pub fn position(&self, observer: &Observer<T>) -> (found: Option<usize>)
        ensures
            found is Some <==> self@.contains(*observer),
            found matches Some(index) ==> is_first_at(self@, *observer, index as int),
    {
        let mut index: usize = 0;
        while index < self.observers.len()
            invariant
                index <= self.observers.len(),
                forall|j: int| 0 <= j < index ==> self.observers@[j] != *observer,
            decreases self.observers.len() - index,
        {
            if same_observer(&self.observers[index], observer) {
                return Some(index);
            }
            index += 1;
        }
        None
    }
}

impl<T> ISubject<T> for Subject<T> {
    open spec fn observers(&self) -> Seq<Observer<T>> {
        self@
    }

    fn add_observer(&mut self, observer: Observer<T>) {
        self.observers.push(observer);
    }

    fn remove_observer(&mut self, observer: Observer<T>) -> (removed: Result<(), SbioError>) {
        match self.position(&observer) {
            Some(index) => {
                proof {
                    lemma_without_first_at(self@, observer, index as int);
                }
                let _ = self.observers.remove(index);
                Ok(())
            },
            None => {
                proof {
                    lemma_remove_absent(self@, observer);
                }
                Err(SbioError::ObserverNotFound)
            },
        }
    }

    fn notify_observers(&self, data: &T) -> (taken: Vec<bool>) {
        let mut taken: Vec<bool> = Vec::new();
        let mut index: usize = 0;
        while index < self.observers.len()
            invariant
                index <= self.observers.len(),
                taken@.len() == index,
            decreases self.observers.len() - index,
        {
            let answer = deliver(&self.observers[index], data);
            taken.push(has_taken(answer));
            index += 1;
        }
        taken
    }

    fn len(&self) -> (count: usize) {
        self.observers.len()
    }
}

} // verus!
