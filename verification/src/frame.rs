//! The application state that drives the split-pane surface: the configured layout and the
//! panes' scroll offsets.
use vstd::prelude::*;
use crate::rect::Rect;
use crate::layout::{
    split_conversation_width, split_conversation_width_spec, composer_right_reserve,
    MIN_SPLIT_WIDTH,
};
use crate::scroll::{
    apply_mouse_scroll, mouse_scroll_spec, MouseEvent, SplitPaneScrollState,
};
use crate::surface::{
    composer_column, composer_column_spec, plan_stream_surface, surface_layout_spec,
    lemma_surface_widths_agree, SurfaceLayout,
};
use crate::transcript::ChatWidget;

verus! {

/// The transcript layout the user configured.
#[derive(Clone, Copy, Debug, PartialEq, Eq, Structural)]
pub enum TuiLayout {
    /// The traditional inline transcript in the shell's scrollback.
    Inline,
    /// The retained conversation/activity surface on the alternate screen.
    Split,
}

/// What the split-pane surface reads of the application.
#[derive(Clone, Copy, Debug, PartialEq, Eq, Structural)]
pub struct App {
    /// The configured transcript layout.
    pub tui_layout: TuiLayout,
    /// How far each pane is scrolled.
    pub split_pane_scroll: SplitPaneScrollState,
    /// The chat widget below the transcript.
    pub chat_widget: ChatWidget,
}

/// How the composer of a frame is to be built before the frame is laid out: with
/// `right_reserve` columns kept free, and asked for its height at the width of `column`.
#[derive(Clone, Copy, Debug, PartialEq, Eq, Structural)]
pub struct ComposerRequest {
    pub right_reserve: u16,
    pub column: Rect,
}

/// A laid-out frame of the split surface, with the reserve its composer was built with.
#[derive(Clone, Copy, Debug, PartialEq, Eq, Structural)]
pub struct SplitPaneFrame {
    pub layout: SurfaceLayout,
    pub composer_right_reserve: u16,
}

impl App {
    /// Whether the terminal should be switched to the alternate screen, with mouse capture, for
    /// the split surface: exactly when the split layout is configured.
    pub fn wants_split_pane_screen(&self) -> (r: bool)
        ensures
            r == (self.tui_layout == TuiLayout::Split),
    {
        match self.tui_layout {
            TuiLayout::Split => true,
            TuiLayout::Inline => false,
        }
    }

    /// Whether the split surface is drawn: the split layout is configured and the alternate
    /// screen is active. An explicit opt-out of the alternate screen keeps the inline
    /// transcript.
    pub fn split_pane_active(&self, alt_screen_active: bool) -> (r: bool)
        ensures
            r == (self.tui_layout == TuiLayout::Split && alt_screen_active),
    {
        self.wants_split_pane_screen() && alt_screen_active
    }

    /// The width the conversation is wrapped at on a terminal `terminal_width` columns wide.
    pub fn split_conversation_width(&self, terminal_width: u16) -> (r: u16)
        ensures
            r == split_conversation_width_spec(terminal_width),
    {
        split_conversation_width(terminal_width)
    }

    /// Routes a mouse event to the pane under the pointer. Returns whether it was a wheel
    /// event, which then is not passed on to composer history navigation and asks for a new
    /// frame.
    pub fn handle_split_pane_mouse(&mut self, terminal_width: u16, event: MouseEvent) -> (r: bool)
        ensures
            r == (event.kind is ScrollUp || event.kind is ScrollDown),
            final(self).split_pane_scroll == mouse_scroll_spec(
                old(self).split_pane_scroll,
                terminal_width,
                event,
            ),
            final(self).tui_layout == old(self).tui_layout,
            final(self).chat_widget == old(self).chat_widget,
    {
        apply_mouse_scroll(&mut self.split_pane_scroll, terminal_width, event)
    }

    /// Columns the composer keeps free on its right on a screen `screen_width` columns wide: the
    /// ambient pet's reserve, except in the split layout, where the activity pane keeps it.
    pub fn split_composer_right_reserve(&self, screen_width: u16) -> (r: u16)
        ensures
            r == (if screen_width >= MIN_SPLIT_WIDTH {
                0
            } else {
                self.chat_widget.ambient_pet_reserved_cols
            }),
    {
        composer_right_reserve(screen_width, self.chat_widget.ambient_pet_right_reserve())
    }

    /// How to build the composer for a frame on `screen`: with the reserve of
    /// [`App::split_composer_right_reserve`], asked for its height at the composer column's
    /// width.
    pub fn split_pane_composer_request(&self, screen: Rect) -> (r: ComposerRequest)
        ensures
            r.right_reserve == (if screen.width >= MIN_SPLIT_WIDTH {
                0
            } else {
                self.chat_widget.ambient_pet_reserved_cols
            }),
            r.column == composer_column_spec(screen),
    {
        ComposerRequest {
            right_reserve: self.split_composer_right_reserve(screen.width),
            column: composer_column(screen),
        }
    }

    /// Lays out a frame of the split surface on the whole screen `screen`, with the composer
    /// (built as [`App::split_pane_composer_request`] says) asking for
    /// `composer_desired_height` rows and the ambient pet's reserve kept free on the right of
    /// the activity (or combined) pane, and notes the conversation's width on the chat widget.
    pub fn render_split_pane_frame(&mut self, screen: Rect, composer_desired_height: u16) -> (r:
        SplitPaneFrame)
        ensures
            r.layout == surface_layout_spec(
                screen,
                composer_desired_height,
                old(self).chat_widget.ambient_pet_reserved_cols,
                old(self).split_pane_scroll,
            ),
            r.composer_right_reserve == (if screen.width >= MIN_SPLIT_WIDTH {
                0
            } else {
                old(self).chat_widget.ambient_pet_reserved_cols
            }),
            final(self).chat_widget.rendered_width@ == Some(
                split_conversation_width_spec(screen.width),
            ),
            final(self).chat_widget.rendered_width@ == Some(
                r.layout.conversation_width_spec(screen),
            ),
            final(self).chat_widget == (ChatWidget {
                rendered_width: final(self).chat_widget.rendered_width,
                ..old(self).chat_widget
            }),
            final(self).tui_layout == old(self).tui_layout,
            final(self).split_pane_scroll == old(self).split_pane_scroll,
    {
        let composer_right_reserve = self.split_composer_right_reserve(screen.width);
        let layout = plan_stream_surface(
            screen,
            composer_desired_height,
            self.chat_widget.ambient_pet_right_reserve(),
            &self.split_pane_scroll,
        );
        let conversation_width = layout.conversation_width(screen);
        proof {
            lemma_surface_widths_agree(
                screen,
                composer_desired_height,
                self.chat_widget.ambient_pet_reserved_cols,
                self.split_pane_scroll,
            );
        }
        self.chat_widget.note_rendered_width(conversation_width);
        SplitPaneFrame { layout, composer_right_reserve }
    }
}

} // verus!
