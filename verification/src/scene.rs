//! The screen as a value: what is shown, and where.
//!
//! A scene names the widgets of one frame and the rectangles they go to. The
//! program paints it; nothing here touches the terminal.

use vstd::prelude::*;
use crate::app::{index_of, labels_of, App, ViewModel};
use crate::layout::{spans_across, split_within, Constraint, Direction, Rect};

verus! {

/// Where a line of text stands in its rectangle.
#[derive(Clone, Copy, Debug, PartialEq, Eq, Structural)]
pub enum Alignment {
    Left,
    Center,
    Right,
}

/// The colours that the screen uses.
#[derive(Clone, Copy, Debug, PartialEq, Eq, Structural)]
pub enum Color {
    /// The terminal's own foreground.
    Default,
    Blue,
    White,
}

/// How the selected row of a list is set off.
#[derive(Clone, Copy, Debug, PartialEq, Eq, Structural)]
pub enum Emphasis {
    Bold,
    Italic,
}

/// One line of text with its style.
#[derive(Clone, Debug, PartialEq, Eq)]
pub struct Line {
    pub text: String,
    pub color: Color,
    pub bold: bool,
    pub alignment: Alignment,
}

/// A bordered list with a title. The selected row, if there is one, is set
/// off by `emphasis` and begins with `marker`.
#[derive(Clone, Debug, PartialEq, Eq)]
pub struct Pane {
    pub title: String,
    pub items: Vec<String>,
    pub selected: Option<usize>,
    pub marker: String,
    pub color: Color,
    pub emphasis: Emphasis,
}

/// One frame: the title, the two panes of the body and the footer, each with
/// the rectangle that it is painted in.
#[derive(Clone, Debug, PartialEq, Eq)]
pub struct Scene {
    pub title: Line,
    pub title_area: Rect,
    pub commands: Pane,
    pub commands_area: Rect,
    pub details: Pane,
    pub details_area: Rect,
    pub footer: Line,
    pub footer_area: Rect,
}

/// The model of a [`Line`].
pub struct LineModel {
    pub text: Seq<char>,
    pub color: Color,
    pub bold: bool,
    pub alignment: Alignment,
}

/// The model of a [`Pane`].
pub struct PaneModel {
    pub title: Seq<char>,
    pub items: Seq<Seq<char>>,
    pub selected: Option<nat>,
    pub marker: Seq<char>,
    pub color: Color,
    pub emphasis: Emphasis,
}

/// The model of a [`Scene`].
pub struct SceneModel {
    pub title: LineModel,
    pub title_area: Rect,
    pub commands: PaneModel,
    pub commands_area: Rect,
    pub details: PaneModel,
    pub details_area: Rect,
    pub footer: LineModel,
    pub footer_area: Rect,
}

impl View for Line {
    type V = LineModel;

    open spec fn view(&self) -> LineModel {
        LineModel {
            text: self.text@,
            color: self.color,
            bold: self.bold,
            alignment: self.alignment,
        }
    }
}

impl View for Pane {
    type V = PaneModel;

    open spec fn view(&self) -> PaneModel {
        PaneModel {
            title: self.title@,
            items: labels_of(self.items@),
            selected: index_of(self.selected),
            marker: self.marker@,
            color: self.color,
            emphasis: self.emphasis,
        }
    }
}

impl View for Scene {
    type V = SceneModel;

    open spec fn view(&self) -> SceneModel {
        SceneModel {
            title: self.title@,
            title_area: self.title_area,
            commands: self.commands@,
            commands_area: self.commands_area,
            details: self.details@,
            details_area: self.details_area,
            footer: self.footer@,
            footer_area: self.footer_area,
        }
    }
}

/// The title line: the name of the tool, bold and blue, in the middle.
pub open spec fn title_line() -> LineModel {
    LineModel {
        text: "Support Tools"@,
        color: Color::Blue,
        bold: true,
        alignment: Alignment::Center,
    }
}

/// The footer line: the hint on how to leave, in the middle.
pub open spec fn footer_line() -> LineModel {
    LineModel {
        text: "Press `q` to quit the tool."@,
        color: Color::Default,
        bold: false,
        alignment: Alignment::Center,
    }
}

/// The left pane: the commands, with the selection of the application.
pub open spec fn commands_pane(vm: ViewModel) -> PaneModel {
    PaneModel {
        title: "Commands"@,
        items: vm.items,
        selected: vm.selected,
        marker: ">> "@,
        color: Color::White,
        emphasis: Emphasis::Bold,
    }
}

/// The right pane: the same labels as a list in which nothing is selected.
pub open spec fn details_pane(vm: ViewModel) -> PaneModel {
    PaneModel {
        title: "Details"@,
        items: vm.items,
        selected: None,
        marker: ">>"@,
        color: Color::White,
        emphasis: Emphasis::Italic,
    }
}

/// The frame that shows `vm`, with its four widgets in the given rectangles.
pub open spec fn scene_of(
    vm: ViewModel,
    title_area: Rect,
    commands_area: Rect,
    details_area: Rect,
    footer_area: Rect,
) -> SceneModel {
    SceneModel {
        title: title_line(),
        title_area,
        commands: commands_pane(vm),
        commands_area,
        details: details_pane(vm),
        details_area,
        footer: footer_line(),
        footer_area,
    }
}

/// Whether `scene` is the frame of `vm`, wherever its widgets stand.
pub open spec fn shows(scene: SceneModel, vm: ViewModel) -> bool {
    scene == scene_of(
        vm,
        scene.title_area,
        scene.commands_area,
        scene.details_area,
        scene.footer_area,
    )
}

/// Whether `scene` is laid out in `area`: all four widgets lie inside it, the
/// title and the footer are as wide as it is, and the two panes stand side by
/// side on the same rows.
pub open spec fn laid_out_in(scene: SceneModel, area: Rect) -> bool {
    &&& area.encloses(scene.title_area)
    &&& area.encloses(scene.commands_area)
    &&& area.encloses(scene.details_area)
    &&& area.encloses(scene.footer_area)
    &&& spans_across(Direction::Vertical, area, scene.title_area)
    &&& spans_across(Direction::Vertical, area, scene.footer_area)
    &&& spans_across(Direction::Horizontal, scene.commands_area, scene.details_area)
}

/// What is asked of the rows of the screen: one for the title, one for the
/// footer, and all between them for the body.
pub fn row_constraints() -> (asked: Vec<Constraint>)
    ensures
        asked@ == seq![Constraint::Length(1), Constraint::Min(0), Constraint::Length(1)],
{
    let mut asked: Vec<Constraint> = Vec::new();
    asked.push(Constraint::Length(1));
    asked.push(Constraint::Min(0));
    asked.push(Constraint::Length(1));
    assert(asked@ =~= seq![Constraint::Length(1), Constraint::Min(0), Constraint::Length(1)]);
    asked
}

/// What is asked of the columns of the body: two panes of equal weight.
pub fn column_constraints() -> (asked: Vec<Constraint>)
    ensures
        asked@ == seq![Constraint::Fill(1), Constraint::Fill(1)],
{
    let mut asked: Vec<Constraint> = Vec::new();
    asked.push(Constraint::Fill(1));
    asked.push(Constraint::Fill(1));
    assert(asked@ =~= seq![Constraint::Fill(1), Constraint::Fill(1)]);
    asked
}

/// A copy of `items`, label by label.
fn copy_labels(items: &Vec<String>) -> (copy: Vec<String>)
    ensures
        copy@ == items@,
{
    let mut copy: Vec<String> = Vec::new();
    let mut next: usize = 0;
    while next < items.len()
        invariant
            next <= items@.len(),
            copy@ == items@.take(next as int),
        decreases items@.len() - next,
    {
        copy.push(items[next].clone());
        assert(copy@ =~= items@.take(next + 1));
        next = next + 1;
    }
    assert(items@.take(items@.len() as int) =~= items@);
    copy
}

impl App {
    /// Composes the frame from the state and from the four rectangles of a
    /// layout.
    pub fn compose(
        &self,
        title_area: Rect,
        commands_area: Rect,
        details_area: Rect,
        footer_area: Rect,
    ) -> (scene: Scene)
        ensures
            scene@ == scene_of(self@, title_area, commands_area, details_area, footer_area),
    {
        let title = Line {
            text: "Support Tools".to_owned(),
            color: Color::Blue,
            bold: true,
            alignment: Alignment::Center,
        };
        let footer = Line {
            text: "Press `q` to quit the tool.".to_owned(),
            color: Color::Default,
            bold: false,
            alignment: Alignment::Center,
        };
        let commands = Pane {
            title: "Commands".to_owned(),
            items: copy_labels(self.items()),
            selected: self.selected(),
            marker: ">> ".to_owned(),
            color: Color::White,
            emphasis: Emphasis::Bold,
        };
        let details = Pane {
            title: "Details".to_owned(),
            items: copy_labels(self.items()),
            selected: None,
            marker: ">>".to_owned(),
            color: Color::White,
            emphasis: Emphasis::Italic,
        };
        Scene {
            title,
            title_area,
            commands,
            commands_area,
            details,
            details_area,
            footer,
            footer_area,
        }
    }

    /// Lays the screen out in `area` and composes the frame: the title row,
    /// the body in two columns, and the footer row.
    ///
    /// What is shown is fixed by the state. Of the rectangles this is fixed:
    /// all four lie inside `area`, the title and the footer are as wide as
    /// `area`, and the two panes stand side by side at one height. Which rows
    /// and columns they take is the choice of the layout solver.
    pub fn draw(&self, area: Rect) -> (scene: Scene)
        ensures
            shows(scene@, self@),
            laid_out_in(scene@, area),
    {
        let rows = split_within(Direction::Vertical, &row_constraints(), area);
        let body = rows[1];
        let columns = split_within(Direction::Horizontal, &column_constraints(), body);
        self.compose(rows[0], columns[0], columns[1], rows[2])
    }
}

} // verus!
