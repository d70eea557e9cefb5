//! Navigation and interaction state machine of a terminal dashboard for
//! browsing the objects of a compute cluster.
//!
//! The library decides what is shown and when new data must be fetched. It
//! neither reads the terminal nor reaches the cluster nor draws: events and
//! the time come in as plain values, and requests, effects and texts go out
//! as plain values.
//!
//! The components, leaves first:
//!
//! - [`selection`]: one collection of items with its selected index;
//!   [`resources`]: the collections of all kinds, addressed by kind.
//! - [`scroll`]: the scroll offsets of the detail views.
//! - [`refresh`]: one timer per class of data.
//! - [`mode`]: the modes and the transitions between them.
//! - [`search`]: incremental search over the names of one collection.
//! - [`confirm`]: confirmation of destructive actions.
//! - [`app`]: the whole state and the operations of the components on it;
//!   [`dispatch`]: the routing of every event to exactly one handler;
//!   [`fetch`]: which request is due and what an answer changes;
//!   [`invariants`]: what holds in every state and for every input.
//! - [`view`], [`table`], [`highlight`], [`amounts`]: the texts and shapes
//!   that a renderer puts on the screen.
//! - [`kubectl`]: the command lines of the cluster tool and the reading of
//!   its output.

pub mod amounts;
pub mod app;
pub mod confirm;
pub mod dispatch;
pub mod events;
pub mod fetch;
pub mod highlight;
pub mod invariants;
pub mod kubectl;
pub mod mode;
pub mod refresh;
pub mod resources;
pub mod scroll;
pub mod search;
pub mod selection;
pub mod table;
pub mod text;
pub mod view;
