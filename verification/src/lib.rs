//! Break-reminder core: the reminder state machine, settings rules,
//! localized strings, menu-bar presentation and wallpaper-cache bookkeeping.

pub mod l10n;
pub mod orchestration;
pub mod platform;
pub mod presentation;
pub mod reminder;
pub mod settings;
pub mod text;
pub mod wallpaper;

