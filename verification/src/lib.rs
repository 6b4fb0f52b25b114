//! A verified text-layout core for a dual-pane terminal file browser.
//!
//! Styled text is segmented into grapheme clusters whose display widths are
//! data; on that model the line wrapper, the horizontal cropper and the
//! layout engine are proved to keep widths, contents and styles as stated.
//! Scrollbar geometry is computed in exact integer fractions. Around the
//! core, the scrollable list, the directory panes, the popups and the input
//! dispatcher are state machines whose transitions are pinned by their
//! contracts; a host performs the terminal and file-system work and feeds
//! the results back in as plain values.

pub mod app;
pub mod crop;
pub mod explorer;
pub mod files;
pub mod listview;
pub mod rect;
pub mod slider;
pub mod text;
pub mod ui;
pub mod widgets;
pub mod wrap;
