use lutetium::actor::refs::{acknowledge, applied, ask, flatten, tell, ActorCell, AnyRef, Delivery};
use lutetium::actor::{ActorContext, Context, RunningState, State, Terminate};
use lutetium::errors::ActorError;
use lutetium::identifier::ActorId;
use lutetium::persistence::PersistContext;
use lutetium::system::ActorSystem;

#[derive(Debug, PartialEq)]
enum Rejection {
    Busy,
    Transport,
}

impl From<ActorError> for Rejection {
    fn from(_: ActorError) -> Self {
        Rejection::Transport
    }
}

#[test]
fn a_running_state_moves_to_shutdown_and_stays() {
    let mut state = RunningState::default();
    assert!(state.is_active());
    assert!(!state.available_shutdown());
    assert_eq!(state.state(), State::Active);
    state.switch();
    assert!(!state.is_active());
    assert!(state.available_shutdown());
    state.switch();
    assert!(state.available_shutdown());
    assert_eq!(state.state(), State::Shutdown);
    assert_ne!(State::Active, State::Shutdown);
}

#[test]
fn a_cell_follows_its_actor() {
    let mut cell = ActorCell::new(RunningState::default());
    assert!(cell.is_active());
    cell.switch();
    assert!(!cell.is_active());
    cell.switch();
    assert!(!cell.is_active());
    let mut stopped = RunningState::default();
    stopped.switch();
    assert!(!ActorCell::new(stopped).is_active());
}

fn system() -> ActorSystem<u8, u8> {
    ActorSystem::<u8, u8>::builder().build()
}

#[test]
fn a_context_tracks_its_actor() {
    let mut system = system();
    let mut ctx = Context::track(ActorId::new("a".to_string()));
    assert_eq!(ctx.id().as_str(), "a");
    assert!(ctx.state().is_active());
    ctx.shutdown(&mut system);
    assert!(ctx.state().available_shutdown());
    assert_eq!(ctx.id().as_str(), "a");
    ctx.shutdown(&mut system);
    assert!(!ctx.state().is_active());

    let mut ctx = PersistContext::track(ActorId::new("p".to_string()));
    assert_eq!(ctx.id().as_str(), "p");
    assert_eq!(ctx.sequence().value(), 0);
    ctx.mut_sequence().incr();
    ctx.shutdown(&mut system);
    assert!(ctx.state().available_shutdown());
    assert_eq!(ctx.sequence().value(), 1);
}

#[test]
fn a_context_stops_with_the_record_of_its_actor() {
    let mut system = system();
    let id = ActorId::new("a".to_string());
    assert!(system.register(id.clone(), AnyRef::new::<u8>(1)).unwrap().is_none());
    let mut ctx = Context::track(id.clone());
    assert!(ctx.state().is_active());
    assert!(system.registry().find(&id).unwrap().is_active());
    ctx.shutdown(&mut system);
    assert!(ctx.state().available_shutdown());
    assert!(!system.registry().find(&id).unwrap().is_active());
    assert_eq!(system.registry().find(&id).unwrap().handle(), &1);
    assert_eq!(system.registry().len(), 1);
}

#[test]
fn terminate_leaves_the_state_at_shutdown() {
    let mut system = system();
    let id = ActorId::new("p".to_string());
    system.register(id.clone(), AnyRef::new::<u8>(1)).unwrap();
    let mut ctx = PersistContext::track(id.clone());
    assert!(Terminate.call(&mut system, &mut ctx).is_ok());
    assert!(ctx.state().available_shutdown());
    assert!(!system.registry().find(&id).unwrap().is_active());
    assert!(Terminate.call(&mut system, &mut ctx).is_ok());
    assert!(!ctx.state().is_active());
    assert!(!system.registry().find(&id).unwrap().is_active());
    assert_eq!(Terminate, Terminate);
}

#[test]
fn a_reply_goes_back_as_it_is() {
    let accepted: Delivery<Result<u8, Rejection>> = Delivery::Replied(Ok(3));
    assert_eq!(ask(accepted).unwrap(), Ok(3));
    let rejected: Delivery<Result<u8, Rejection>> = Delivery::Replied(Err(Rejection::Busy));
    assert_eq!(ask(rejected).unwrap(), Err(Rejection::Busy));
    assert_eq!(tell::<Rejection>(Delivery::Replied(Ok(()))).unwrap(), Ok(()));
    assert_eq!(tell(Delivery::Replied(Err(Rejection::Busy))).unwrap(), Err(Rejection::Busy));
}

#[test]
fn a_closed_channel_is_a_transport_error() {
    assert!(matches!(ask::<u8, Rejection>(Delivery::Refused), Err(ActorError::CallBackSend)));
    assert!(matches!(ask::<u8, Rejection>(Delivery::Dropped), Err(ActorError::CallBackSend)));
    assert!(matches!(tell::<Rejection>(Delivery::Refused), Err(ActorError::CallBackSend)));
    assert!(matches!(tell::<Rejection>(Delivery::Dropped), Err(ActorError::CallBackSend)));
}

#[test]
fn flatten_folds_the_transport_error_in() {
    assert_eq!(flatten::<u8, ActorError, Rejection>(Ok(Ok(1))), Ok(1));
    assert_eq!(flatten::<u8, ActorError, Rejection>(Ok(Err(Rejection::Busy))), Err(Rejection::Busy));
    assert_eq!(flatten::<u8, ActorError, Rejection>(Err(ActorError::CallBackSend)), Err(Rejection::Transport));
    assert_eq!(flatten(ask::<u8, Rejection>(Delivery::Dropped)), Err(Rejection::Transport));
}

#[test]
fn a_told_message_is_acknowledged_without_its_value() {
    assert_eq!(acknowledge::<u8, Rejection>(Ok(9)), Ok(()));
    assert_eq!(acknowledge::<u8, Rejection>(Err(Rejection::Busy)), Err(Rejection::Busy));
    assert!(applied(true).is_ok());
    assert!(matches!(applied(false), Err(ActorError::CallBackSend)));
}

#[test]
fn a_reference_knows_its_type_and_its_state() {
    let actor: AnyRef<&str> = AnyRef::new::<u8>("handle");
    assert!(actor.is_active());
    assert_eq!(actor.handle(), &"handle");
    assert_eq!(actor.downcast::<u8>().unwrap(), &"handle");
    assert!(matches!(actor.downcast::<u16>(), Err(ActorError::DownCastFromAny)));
    let other: AnyRef<&str> = AnyRef::of(std::any::TypeId::of::<u16>(), "other");
    assert!(other.downcast::<u16>().is_ok());
    assert!(other.downcast_as(&std::any::TypeId::of::<u16>()).is_ok());
    assert!(matches!(
        other.downcast_as(&std::any::TypeId::of::<u8>()),
        Err(ActorError::DownCastFromAny)
    ));
}

#[test]
fn actor_errors_say_what_they_are() {
    let id = ActorId::new("a".to_string());
    assert_eq!(
        ActorError::AlreadySpawned { id: id.clone() }.to_string(),
        "Actor with this identifier: a has already been activated."
    );
    assert_eq!(
        ActorError::NotFoundActor { id }.to_string(),
        "The target actor could not be found. actor: `a` It may have already been shut down or may not have started."
    );
    assert_eq!(
        ActorError::CallBackSend.to_string(),
        "Could not execute callback, channel may be closed."
    );
    assert_eq!(
        ActorError::DownCastFromAny.to_string(),
        "May have passed different type information than what was expected when downcasting from `Any` to type."
    );
    assert_eq!(
        ActorError::MissingExtension(lutetium::system::ExtensionMissingError { module: "m" }).to_string(),
        "extension = `m` does not installed in ActorSystem."
    );
    assert_eq!(
        ActorError::FailedActivation { reason: "recover", id: "a".to_string() }.to_string(),
        "Activation failed at `recover`. actor: `a`"
    );
    assert_eq!(ActorError::External("outside".to_string()).to_string(), "outside");
}
