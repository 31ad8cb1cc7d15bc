//! Plain event payloads, and a way to wrap several kinds of event in one enum.
use vstd::prelude::*;

use super::{ActorId, DamageInstance, EffectInstance, StatusEffect};

verus! {

/// A wrapper enum that can hold an event of type `E`.
pub trait HasEvent<E>: Sized {
    /// The event held, if the wrapper holds one of type `E`.
    spec fn spec_event(&self) -> Option<E>;

    /// Wraps an event.
    fn new(source: E) -> (r: Self)
        ensures
            r.spec_event() == Some(source),
    ;

    /// Returns the event held, if it has type `E`.
    fn get(&self) -> (r: Option<&E>)
        ensures
            r matches Some(e) ==> self.spec_event() == Some(*e),
            r is None ==> self.spec_event() is None,
    ;

    /// Returns a mutable reference to the event held, if it has type `E`.
    fn get_mut(&mut self) -> (r: Option<&mut E>)
        ensures
            r matches Some(e) ==> old(self).spec_event() == Some(*e) && final(self).spec_event() == Some(
                *final(e),
            ),
            r is None ==> old(self).spec_event() is None && *final(self) == *old(self),
    ;

    /// Unwraps the event held if it has type `E`, or hands the wrapper back.
    fn into(self) -> (r: Result<E, Self>)
        ensures
            r matches Ok(e) ==> self.spec_event() == Some(e),
            r matches Err(w) ==> self.spec_event() is None && w == self,
    ;
}

/// A wrapper enum of several kinds of event.
pub trait EventWrapper: Sized {
    /// Wraps an event.
    fn create<E>(source: E) -> (r: Self) where Self: HasEvent<E>
        ensures
            <Self as HasEvent<E>>::spec_event(&r) == Some(source),
    {
        <Self as HasEvent<E>>::new(source)
    }

    /// Returns the event held, if it has type `E`.
    fn get<E>(&self) -> Option<&E> where Self: HasEvent<E> {
        <Self as HasEvent<E>>::get(self)
    }

    /// Returns a mutable reference to the event held, if it has type `E`.
    fn get_mut<E>(&mut self) -> Option<&mut E> where Self: HasEvent<E> {
        <Self as HasEvent<E>>::get_mut(self)
    }

    /// Unwraps the event held if it has type `E`, or hands the wrapper back.
    fn into<E>(self) -> Result<E, Self> where Self: HasEvent<E> {
        <Self as HasEvent<E>>::into(self)
    }
}

/// The events that every simulation has.
#[derive(Copy, Clone, Debug)]
pub enum CommonEvent {
    /// Damage is dealt.
    DamageEvent(DamageEvent),
    /// Health is restored.
    CureEvent(CureEvent),
    /// An effect is applied.
    EffectApplyEvent(EffectApplyEvent),
    /// An effect is removed.
    EffectRemoveEvent(EffectRemoveEvent),
}

impl EventWrapper for CommonEvent {

}

impl HasEvent<DamageEvent> for CommonEvent {
    open spec fn spec_event(&self) -> Option<DamageEvent> {
        match self {
            CommonEvent::DamageEvent(v) => Some(*v),
            _ => None,
        }
    }

    fn new(source: DamageEvent) -> (r: Self) {
        CommonEvent::DamageEvent(source)
    }

    fn get(&self) -> (r: Option<&DamageEvent>) {
        match self {
            CommonEvent::DamageEvent(v) => Some(v),
            _ => None,
        }
    }

    fn get_mut(&mut self) -> (r: Option<&mut DamageEvent>) {
        match self {
            CommonEvent::DamageEvent(v) => Some(v),
            _ => None,
        }
    }

    fn into(self) -> (r: Result<DamageEvent, Self>) {
        match self {
            CommonEvent::DamageEvent(v) => Ok(v),
            _ => Err(self),
        }
    }
}

impl HasEvent<CureEvent> for CommonEvent {
    open spec fn spec_event(&self) -> Option<CureEvent> {
        match self {
            CommonEvent::CureEvent(v) => Some(*v),
            _ => None,
        }
    }

    fn new(source: CureEvent) -> (r: Self) {
        CommonEvent::CureEvent(source)
    }

    fn get(&self) -> (r: Option<&CureEvent>) {
        match self {
            CommonEvent::CureEvent(v) => Some(v),
            _ => None,
        }
    }

    fn get_mut(&mut self) -> (r: Option<&mut CureEvent>) {
        match self {
            CommonEvent::CureEvent(v) => Some(v),
            _ => None,
        }
    }

    fn into(self) -> (r: Result<CureEvent, Self>) {
        match self {
            CommonEvent::CureEvent(v) => Ok(v),
            _ => Err(self),
        }
    }
}

impl HasEvent<EffectApplyEvent> for CommonEvent {
    open spec fn spec_event(&self) -> Option<EffectApplyEvent> {
        match self {
            CommonEvent::EffectApplyEvent(v) => Some(*v),
            _ => None,
        }
    }

    fn new(source: EffectApplyEvent) -> (r: Self) {
        CommonEvent::EffectApplyEvent(source)
    }

    fn get(&self) -> (r: Option<&EffectApplyEvent>) {
        match self {
            CommonEvent::EffectApplyEvent(v) => Some(v),
            _ => None,
        }
    }

    fn get_mut(&mut self) -> (r: Option<&mut EffectApplyEvent>) {
        match self {
            CommonEvent::EffectApplyEvent(v) => Some(v),
            _ => None,
        }
    }

    fn into(self) -> (r: Result<EffectApplyEvent, Self>) {
        match self {
            CommonEvent::EffectApplyEvent(v) => Ok(v),
            _ => Err(self),
        }
    }
}

impl HasEvent<EffectRemoveEvent> for CommonEvent {
    open spec fn spec_event(&self) -> Option<EffectRemoveEvent> {
        match self {
            CommonEvent::EffectRemoveEvent(v) => Some(*v),
            _ => None,
        }
    }

    fn new(source: EffectRemoveEvent) -> (r: Self) {
        CommonEvent::EffectRemoveEvent(source)
    }

    fn get(&self) -> (r: Option<&EffectRemoveEvent>) {
        match self {
            CommonEvent::EffectRemoveEvent(v) => Some(v),
            _ => None,
        }
    }

    fn get_mut(&mut self) -> (r: Option<&mut EffectRemoveEvent>) {
        match self {
            CommonEvent::EffectRemoveEvent(v) => Some(v),
            _ => None,
        }
    }

    fn into(self) -> (r: Result<EffectRemoveEvent, Self>) {
        match self {
            CommonEvent::EffectRemoveEvent(v) => Ok(v),
            _ => Err(self),
        }
    }
}

/// An action is cast.
#[derive(Clone, Debug)]
pub struct CastEvent<A> {
    /// The actor that cast the action.
    pub source: ActorId,
    /// The target actors that the action hits.
    pub targets: Vec<ActorId>,
    /// The action that was cast.
    pub action: A,
}

/// Damage is dealt.
#[derive(Copy, Clone, Debug)]
pub struct DamageEvent {
    /// The actor that applied the damage.
    pub source: ActorId,
    /// The target actor that is taking damage.
    pub target: ActorId,
    /// The damage that is being applied.
    pub damage: DamageInstance,
}

/// Health is restored.
#[derive(Copy, Clone, Debug)]
pub struct CureEvent {
    /// The source of the cure.
    pub source: ActorId,
    /// The target actor of the cure.
    pub target: ActorId,
    /// The amount of HP restored by the cure.
    pub health: u64,
}

/// An effect is applied.
#[derive(Copy, Clone, Debug)]
pub struct EffectApplyEvent {
    /// The actor that applied the effect.
    pub source: ActorId,
    /// The target actor to apply the effect to.
    pub target: ActorId,
    /// The effect to be applied.
    pub effect: EffectInstance,
}

/// An effect is removed.
#[derive(Copy, Clone, Debug)]
pub struct EffectRemoveEvent {
    /// The actor that removed the effect, or `None` if it fell off naturally.
    pub source: Option<ActorId>,
    /// The target actor that the effect was removed from.
    pub target: ActorId,
    /// The effect to remove from the target: the actor that applied it, and the effect.
    pub effect: (ActorId, StatusEffect),
}

} // verus!
