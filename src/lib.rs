//! Window ownership, zoom-query guarding and event translation for a
//! desktop windowing backend, with the native calls kept at the edge.

mod device;
mod error;
mod event;
mod event_loop;
mod window;

pub use device::{lemma_device_ids_equal, DeviceId};
pub use error::{CGError, OsError};
pub use event::{
    window_event_for, window_event_of, AppNotification, Event, WindowEvent, WindowNotification,
};
pub use event_loop::{
    app_events, emitted, lemma_arrival_order, lemma_run_append, lemma_run_keeps_queue,
    lemma_zoom_delivered_once, lemma_zoom_echo_suppressed, lifecycle_after, next_lifecycle, run,
    step, ActivationPolicy, AppLifecycle, Arrival, AuxDelegateState, EventLoopWindowTarget,
    LoopModel,
};
pub use window::{
    lemma_raw_round_trip, size_valid, validate_attributes, NativeHandle,
    PlatformSpecificWindowBuilderAttributes, UnownedWindow, Window, WindowAttributes, WindowId,
    WindowModel, WindowObserver,
};
