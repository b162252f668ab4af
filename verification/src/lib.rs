//! A tiling window manager core: a registry of managed windows partitioned
//! into workspaces ("tags"), a deterministic layout engine, a keyboard-chord
//! recognizer, and a serialized event dispatcher tying them together.
//!
//! All display-server and configuration-file traffic stays outside this
//! crate; the library works on plain values and is verified.

mod config;
mod dispatch;
mod geometry;
mod keyboard;
mod keycodes;
mod layout;
mod registry;
mod window;

pub use config::Config;
pub use config::GapsConfig;
pub use config::TilingConfig;
pub use config::WindowConfig;
pub use dispatch::DispatchOutcome;
pub use dispatch::Event;
pub use dispatch::WindowManager;
pub use geometry::Rect;
pub use keyboard::KeyCombination;
pub use keyboard::KeyboardEventHandler;
pub use keyboard::parce_combination;
pub use keycodes::Audio;
pub use keycodes::AudioVolume;
pub use keycodes::Functional;
pub use keycodes::KBD;
pub use keycodes::KeyCode;
pub use keycodes::KeyPosition;
pub use keycodes::Letter;
pub use keycodes::ModKey;
pub use keycodes::Monitor;
pub use keycodes::Numpad;
pub use keycodes::Symbols;
pub use keycodes::TouchPad;
pub use keycodes::key_from_label;
pub use keycodes::u8_decimal;
pub use layout::Compositor;
pub use layout::GeometryWrite;
pub use layout::LayoutHandle;
pub use layout::LayoutStrategy;
pub use layout::TilingCompositor;
pub use layout::compute;
pub use layout::compute_floating;
pub use layout::compute_monocle;
pub use layout::compute_tiling;
pub use registry::RegistryError;
pub use registry::WindowRegistry;
pub use window::ManagedWindow;
pub use window::TagRules;
pub use window::WindowPosition;
pub use window::WindowSize;
