//! The status display: a snapshot of the state record, the text of each
//! field, and the cells of the panel with what has to be drawn again.
//!
//! The panel is laid out once, as a background icon and five labels. Each
//! label is a row of cells, one glyph each. Updating writes the text of a
//! snapshot into the cells and marks those whose glyph changed; rendering
//! hands out one draw command for each marked cell and clears the marks.

use vstd::prelude::*;
use crate::assets::{Asset, GLYPH_SPACE, GLYPH_ZERO};
use crate::state::{App, AppState, StateView};

verus! {

/// Width of the panel in pixels.
pub const PANEL_WIDTH: u8 = 128;

/// Height of the panel in pixels.
pub const PANEL_HEIGHT: u8 = 64;

/// Number of cells on the panel.
pub const CELL_COUNT: usize = 9;

/// Background glyph shown behind the labels.
pub const BACKGROUND_GLYPH: u8 = 1;

/// Largest heater power the two-digit label can show.
pub const POWER_SHOWN_MAX: u16 = 99;

/// What the display needs of the state record, copied out at one instant.
#[derive(Clone, Copy, PartialEq, Eq, Debug)]
pub struct UiSnapshot {
    pub frame: usize,
    pub set_temp: u16,
    pub cur_temp: u16,
    pub heater_power: u16,
}

/// One glyph position on the panel.
#[derive(Clone, Copy, PartialEq, Eq, Debug)]
pub struct Cell {
    pub x: u8,
    pub y: u8,
    pub asset: Asset,
    pub glyph: u8,
    pub dirty: bool,
}

/// A request to draw one glyph of a sprite sheet with its top left corner at
/// (`x`, `y`).
#[derive(Clone, Copy, PartialEq, Eq, Debug)]
pub struct DrawCommand {
    pub x: u8,
    pub y: u8,
    pub sprite_id: u8,
    pub glyph: u8,
}

/// The snapshot that a state record yields.
pub open spec fn snapshot_of(state: StateView) -> UiSnapshot {
    UiSnapshot {
        frame: state.frame as usize,
        set_temp: state.set_temp as u16,
        cur_temp: state.cur_temp as u16,
        heater_power: state.heater_power as u16,
    }
}

/// Glyph of the decimal digit `digit`.
pub open spec fn digit_glyph(digit: int) -> u8 {
    (GLYPH_ZERO + digit) as u8
}

/// `value` below 100 as two glyphs, a lone digit preceded by `pad`.
pub open spec fn padded_pair(value: int, pad: u8) -> Seq<u8> {
    seq![if value < 10 { pad } else { digit_glyph(value / 10) }, digit_glyph(value % 10)]
}

/// Heater power as two digits with a leading zero; more than 99 shows as 99.
pub open spec fn power_text(percent: int) -> Seq<u8> {
    padded_pair(if percent > 99 { 99 } else { percent }, GLYPH_ZERO)
}

/// Whole degrees of a temperature in milli-degrees, as two glyphs with a
/// leading space.
pub open spec fn whole_text(temp: int) -> Seq<u8> {
    padded_pair(temp / 1000, GLYPH_SPACE)
}

/// Tenths of a degree of a temperature in milli-degrees, as one digit.
pub open spec fn frac_text(temp: int) -> Seq<u8> {
    seq![digit_glyph(temp / 100 % 10)]
}

/// The glyphs of all cells, in panel order, that show `snapshot`.
pub open spec fn target_glyphs(snapshot: UiSnapshot) -> Seq<u8> {
    seq![BACKGROUND_GLYPH] + power_text(snapshot.heater_power as int) + whole_text(
        snapshot.cur_temp as int,
    ) + frac_text(snapshot.cur_temp as int) + whole_text(snapshot.set_temp as int) + frac_text(
        snapshot.set_temp as int,
    )
}

/// The cells of a label of `len` glyphs that starts at (`x`, `y`) and runs to
/// the right, each cell as wide as a cell of the sheet, all showing `glyph`
/// and waiting to be drawn.
pub open spec fn label_cells(asset: Asset, x: int, y: int, glyph: u8, len: nat) -> Seq<Cell> {
    Seq::new(
        len,
        |k: int|
            Cell { x: (x + asset.cell_width() * k) as u8, y: y as u8, asset, glyph, dirty: true },
    )
}

/// The panel as it is laid out at start-up: the background, then heater
/// power, measured temperature with its tenths, and setpoint with its tenths.
pub open spec fn initial_cells() -> Seq<Cell> {
    label_cells(Asset::Background, 0, 0, BACKGROUND_GLYPH, 1) + label_cells(
        Asset::FontSmall,
        18,
        0,
        GLYPH_ZERO,
        2,
    ) + label_cells(Asset::FontSmall, 76, 0, GLYPH_ZERO, 2) + label_cells(
        Asset::FontSmall,
        100,
        0,
        GLYPH_ZERO,
        1,
    ) + label_cells(Asset::FontLarge, 2, 24, GLYPH_ZERO, 2) + label_cells(
        Asset::FontLarge,
        86,
        24,
        GLYPH_ZERO,
        1,
    )
}

/// Whether `cell` lies within the panel and shows a glyph its sheet holds.
pub open spec fn cell_drawable(cell: Cell) -> bool {
    &&& cell.x + cell.asset.cell_width() <= PANEL_WIDTH
    &&& cell.y + cell.asset.cell_height() <= PANEL_HEIGHT
    &&& cell.asset.holds(cell.glyph)
}

/// Whether `cells` is the panel: every cell where the layout put it, and
/// drawable.
pub open spec fn cells_wf(cells: Seq<Cell>) -> bool {
    &&& cells.len() == CELL_COUNT
    &&& forall|i: int|
        0 <= i < cells.len() ==> {
            &&& (#[trigger] cells[i]).x == initial_cells()[i].x
            &&& cells[i].y == initial_cells()[i].y
            &&& cells[i].asset == initial_cells()[i].asset
            &&& cell_drawable(cells[i])
        }
}

/// The panel after the glyphs `glyphs` were written into it: a cell whose
/// glyph changed waits to be drawn, and so does one that waited before.
pub open spec fn cells_with_glyphs(cells: Seq<Cell>, glyphs: Seq<u8>) -> Seq<Cell> {
    Seq::new(
        cells.len(),
        |i: int|
            Cell {
                glyph: glyphs[i],
                dirty: cells[i].dirty || cells[i].glyph != glyphs[i],
                ..cells[i]
            },
    )
}

/// The panel after `snapshot` was written into it.
pub open spec fn cells_after_update(cells: Seq<Cell>, snapshot: UiSnapshot) -> Seq<Cell> {
    cells_with_glyphs(cells, target_glyphs(snapshot))
}

/// The panel after everything that waited was drawn.
pub open spec fn cells_after_render(cells: Seq<Cell>) -> Seq<Cell> {
    Seq::new(cells.len(), |i: int| Cell { dirty: false, ..cells[i] })
}

/// The command that draws `cell`.
pub open spec fn command_for(cell: Cell) -> DrawCommand {
    DrawCommand { x: cell.x, y: cell.y, sprite_id: cell.asset.id() as u8, glyph: cell.glyph }
}

/// The commands that draw the waiting cells of `cells`, in panel order.
pub open spec fn pending_commands(cells: Seq<Cell>) -> Seq<DrawCommand>
    decreases cells.len(),
{
    if cells.len() == 0 {
        Seq::empty()
    } else if cells.last().dirty {
        pending_commands(cells.drop_last()).push(command_for(cells.last()))
    } else {
        pending_commands(cells.drop_last())
    }
}

/// Whether `command` names a sheet, a glyph that the sheet holds, and a
/// position at which the glyph lies within the panel.
pub open spec fn command_drawable(command: DrawCommand) -> bool {
    exists|cell: Cell| #[trigger] command_for(cell) == command && cell_drawable(cell)
}

/// Copies out of the state record what the display shows.
pub fn snapshot(state: &AppState) -> (copy: UiSnapshot)
    ensures
        copy == snapshot_of(state@),
{
    UiSnapshot {
        frame: state.frame(),
        set_temp: state.set_temp(),
        cur_temp: state.cur_temp(),
        heater_power: state.heater_power(),
    }
}

/// The part of a display tick that touches the state record: advances the
/// animation by one frame and copies out what the display shows.
pub fn ui_tick(app: &mut App) -> (copy: UiSnapshot)
    ensures
        final(app)@ == old(app)@.after_animate(),
        copy == snapshot_of(final(app)@),
{
    app.animate();
    snapshot(app.state())
}

/// Duty of the panel's backlight: half of what its output accepts.
pub fn backlight_duty(max_duty: u16) -> (duty: u16)
    ensures
        duty == max_duty / 2,
{
    max_duty / 2
}

/// Glyph of a decimal digit.
fn digit(value: u16) -> (glyph: u8)
    requires
        value < 10,
    ensures
        glyph == digit_glyph(value as int),
{
    GLYPH_ZERO + value as u8
}

/// A value below 100 as two glyphs, a lone digit preceded by `pad`.
fn pair(value: u16, pad: u8) -> (text: [u8; 2])
    requires
        value < 100,
    ensures
        text@ == padded_pair(value as int, pad),
{
    let high: u8 = if value < 10 {
        pad
    } else {
        digit(value / 10)
    };
    let text: [u8; 2] = [high, digit(value % 10)];
    assert(text@ =~= padded_pair(value as int, pad));
    text
}

/// Heater power as the two digits of its label.
pub fn heater_power_text(percent: u16) -> (text: [u8; 2])
    ensures
        text@ == power_text(percent as int),
{
    let shown: u16 = if percent > POWER_SHOWN_MAX {
        POWER_SHOWN_MAX
    } else {
        percent
    };
    pair(shown, GLYPH_ZERO)
}

/// Whole degrees of a temperature in milli-degrees as the two glyphs of its
/// label.
pub fn temp_whole_text(temp: u16) -> (text: [u8; 2])
    ensures
        text@ == whole_text(temp as int),
{
    pair(temp / 1000, GLYPH_SPACE)
}

/// Tenths of a degree of a temperature in milli-degrees as the glyph of its
/// label.
pub fn temp_frac_text(temp: u16) -> (text: [u8; 1])
    ensures
        text@ == frac_text(temp as int),
{
    let text: [u8; 1] = [digit(temp / 100 % 10)];
    assert(text@ =~= frac_text(temp as int));
    text
}

/// The cells of the panel and what of them has to be drawn again.
pub struct Ui {
    cells: Vec<Cell>,
}

impl View for Ui {
    type V = Seq<Cell>;

    closed spec fn view(&self) -> Seq<Cell> {
        self.cells@
    }
}

/// Appends the cells of a label that lies within the panel.
fn push_label(cells: &mut Vec<Cell>, asset: Asset, x: u8, y: u8, glyph: u8, len: u8)
    requires
        x + asset.cell_width() * len <= PANEL_WIDTH,
    ensures
        final(cells)@ == old(cells)@ + label_cells(asset, x as int, y as int, glyph, len as nat),
{
    let width: u8 = asset.width();
    let mut cell_x: u8 = x;
    let mut k: u8 = 0;
    while k < len
        invariant
            k <= len,
            width == asset.cell_width(),
            x + width * len <= PANEL_WIDTH,
            k < len ==> cell_x == x + width * k,
            cells@ == old(cells)@ + label_cells(asset, x as int, y as int, glyph, k as nat),
        decreases len - k,
    {
        let ghost before = cells@;
        cells.push(Cell { x: cell_x, y, asset, glyph, dirty: true });
        assert(width * (k + 1) == width * k + width) by (nonlinear_arith);
        assert(width * (k + 1) <= width * len) by (nonlinear_arith)
            requires
                k + 1 <= len,
                width >= 0,
        ;
        assert(cells@ =~= old(cells)@ + label_cells(
            asset,
            x as int,
            y as int,
            glyph,
            (k + 1) as nat,
        ));
        k = k + 1;
        if k < len {
            cell_x = cell_x + width;
        }
    }
}

impl Ui {
    #[verifier::type_invariant]
    spec fn inv(self) -> bool {
        cells_wf(self.cells@)
    }

    /// The panel as laid out at start-up, with every cell waiting to be
    /// drawn.
    pub fn new() -> (ui: Ui)
        ensures
            ui@ == initial_cells(),
            cells_wf(ui@),
    {
        let mut cells: Vec<Cell> = Vec::new();
        push_label(&mut cells, Asset::Background, 0, 0, BACKGROUND_GLYPH, 1);
        push_label(&mut cells, Asset::FontSmall, 18, 0, GLYPH_ZERO, 2);
        push_label(&mut cells, Asset::FontSmall, 76, 0, GLYPH_ZERO, 2);
        push_label(&mut cells, Asset::FontSmall, 100, 0, GLYPH_ZERO, 1);
        push_label(&mut cells, Asset::FontLarge, 2, 24, GLYPH_ZERO, 2);
        push_label(&mut cells, Asset::FontLarge, 86, 24, GLYPH_ZERO, 1);
        proof {
            assert(cells@ =~= initial_cells());
            lemma_initial_cells_wf();
        }
        Ui { cells }
    }

    /// The cells of the panel, in panel order.
    pub fn cells(&self) -> (cells: &Vec<Cell>)
        ensures
            cells@ == self@,
            cells_wf(self@),
    {
        proof {
            use_type_invariant(self);
        }
        &self.cells
    }

    /// Writes the text of `snapshot` into the labels and marks each cell
    /// whose glyph changed.
    pub fn update(&mut self, snapshot: &UiSnapshot)
        ensures
            final(self)@ == cells_after_update(old(self)@, *snapshot),
            cells_wf(final(self)@),
    {
        proof {
            use_type_invariant(&*self);
            lemma_target_glyphs_held(*snapshot);
        }
        let power: [u8; 2] = heater_power_text(snapshot.heater_power);
        let cur_whole: [u8; 2] = temp_whole_text(snapshot.cur_temp);
        let cur_frac: [u8; 1] = temp_frac_text(snapshot.cur_temp);
        let set_whole: [u8; 2] = temp_whole_text(snapshot.set_temp);
        let set_frac: [u8; 1] = temp_frac_text(snapshot.set_temp);
        let target: [u8; 9] = [
            BACKGROUND_GLYPH,
            power[0],
            power[1],
            cur_whole[0],
            cur_whole[1],
            cur_frac[0],
            set_whole[0],
            set_whole[1],
            set_frac[0],
        ];
        assert(target@ =~= target_glyphs(*snapshot));
        let mut cells: Vec<Cell> = Vec::new();
        let mut i: usize = 0;
        while i < CELL_COUNT
            invariant
                i <= CELL_COUNT,
                self.cells@.len() == CELL_COUNT,
                target@ == target_glyphs(*snapshot),
                cells@ == cells_after_update(self.cells@, *snapshot).take(i as int),
            decreases CELL_COUNT - i,
        {
            let cell: Cell = self.cells[i];
            let glyph: u8 = target[i];
            cells.push(
                Cell {
                    x: cell.x,
                    y: cell.y,
                    asset: cell.asset,
                    glyph,
                    dirty: cell.dirty || cell.glyph != glyph,
                },
            );
            assert(cells@ =~= cells_after_update(self.cells@, *snapshot).take(i as int + 1));
            i = i + 1;
        }
        proof {
            assert(cells@ =~= cells_after_update(self.cells@, *snapshot));
            lemma_update_keeps_wf(self.cells@, *snapshot);
        }
        self.cells = cells;
    }

    /// Hands out one draw command for each cell that waits to be drawn, in
    /// panel order, and clears the marks.
    pub fn render(&mut self) -> (commands: Vec<DrawCommand>)
        ensures
            commands@ == pending_commands(old(self)@),
            final(self)@ == cells_after_render(old(self)@),
            forall|i: int| 0 <= i < commands@.len() ==> command_drawable(#[trigger] commands@[i]),
            cells_wf(final(self)@),
    {
        proof {
            use_type_invariant(&*self);
        }
        let mut commands: Vec<DrawCommand> = Vec::new();
        let mut cells: Vec<Cell> = Vec::new();
        let mut i: usize = 0;
        while i < CELL_COUNT
            invariant
                i <= CELL_COUNT,
                cells_wf(self.cells@),
                commands@ == pending_commands(self.cells@.take(i as int)),
                forall|j: int|
                    0 <= j < commands@.len() ==> command_drawable(#[trigger] commands@[j]),
                cells@ == cells_after_render(self.cells@).take(i as int),
            decreases CELL_COUNT - i,
        {
            let cell: Cell = self.cells[i];
            proof {
                let upto = self.cells@.take(i as int + 1);
                assert(upto.drop_last() =~= self.cells@.take(i as int));
                assert(upto.last() == cell);
            }
            if cell.dirty {
                let command = DrawCommand {
                    x: cell.x,
                    y: cell.y,
                    sprite_id: cell.asset.sprite_id(),
                    glyph: cell.glyph,
                };
                assert(command_for(cell) == command && cell_drawable(cell));
                commands.push(command);
            }
            cells.push(
                Cell { x: cell.x, y: cell.y, asset: cell.asset, glyph: cell.glyph, dirty: false },
            );
            assert(cells@ =~= cells_after_render(self.cells@).take(i as int + 1));
            i = i + 1;
        }
        proof {
            assert(self.cells@.take(CELL_COUNT as int) =~= self.cells@);
            assert(cells@ =~= cells_after_render(self.cells@));
            lemma_render_keeps_wf(self.cells@);
        }
        self.cells = cells;
        commands
    }
}

/// The start-up layout is a panel: nine cells, each within the panel and
/// showing a glyph that its sheet holds.
pub proof fn lemma_initial_cells_wf()
    ensures
        cells_wf(initial_cells()),
{
    let cells = initial_cells();
    assert(cells.len() == 9);
    assert(cell_drawable(cells[0]));
    assert(cell_drawable(cells[1]));
    assert(cell_drawable(cells[2]));
    assert(cell_drawable(cells[3]));
    assert(cell_drawable(cells[4]));
    assert(cell_drawable(cells[5]));
    assert(cell_drawable(cells[6]));
    assert(cell_drawable(cells[7]));
    assert(cell_drawable(cells[8]));
}

/// Whatever the snapshot, every glyph of its text is one that the sheet of
/// its cell holds.
pub proof fn lemma_target_glyphs_held(snapshot: UiSnapshot)
    ensures
        target_glyphs(snapshot).len() == CELL_COUNT,
        forall|i: int|
            0 <= i < CELL_COUNT ==> initial_cells()[i].asset.holds(
                #[trigger] target_glyphs(snapshot)[i],
            ),
{
    let glyphs = target_glyphs(snapshot);
    let cells = initial_cells();
    assert(glyphs.len() == 9);
    assert(cells[0].asset.holds(glyphs[0]));
    assert(cells[1].asset.holds(glyphs[1]));
    assert(cells[2].asset.holds(glyphs[2]));
    assert(cells[3].asset.holds(glyphs[3]));
    assert(cells[4].asset.holds(glyphs[4]));
    assert(cells[5].asset.holds(glyphs[5]));
    assert(cells[6].asset.holds(glyphs[6]));
    assert(cells[7].asset.holds(glyphs[7]));
    assert(cells[8].asset.holds(glyphs[8]));
}

/// Writing a snapshot into a panel leaves a panel.
pub proof fn lemma_update_keeps_wf(cells: Seq<Cell>, snapshot: UiSnapshot)
    requires
        cells_wf(cells),
    ensures
        cells_wf(cells_after_update(cells, snapshot)),
{
    lemma_target_glyphs_held(snapshot);
    let after = cells_after_update(cells, snapshot);
    assert forall|i: int| 0 <= i < after.len() implies {
        &&& (#[trigger] after[i]).x == initial_cells()[i].x
        &&& after[i].y == initial_cells()[i].y
        &&& after[i].asset == initial_cells()[i].asset
        &&& cell_drawable(after[i])
    } by {
        assert(cell_drawable(cells[i]));
        assert(initial_cells()[i].asset.holds(target_glyphs(snapshot)[i]));
    }
}

/// Drawing what waits leaves a panel.
pub proof fn lemma_render_keeps_wf(cells: Seq<Cell>)
    requires
        cells_wf(cells),
    ensures
        cells_wf(cells_after_render(cells)),
{
    let after = cells_after_render(cells);
    assert forall|i: int| 0 <= i < after.len() implies {
        &&& (#[trigger] after[i]).x == initial_cells()[i].x
        &&& after[i].y == initial_cells()[i].y
        &&& after[i].asset == initial_cells()[i].asset
        &&& cell_drawable(after[i])
    } by {
        assert(cell_drawable(cells[i]));
    }
}

/// A panel on which nothing waits yields no draw command.
pub proof fn lemma_clean_panel_draws_nothing(cells: Seq<Cell>)
    requires
        forall|i: int| 0 <= i < cells.len() ==> !(#[trigger] cells[i]).dirty,
    ensures
        pending_commands(cells) == Seq::<DrawCommand>::empty(),
    decreases cells.len(),
{
    if cells.len() > 0 {
        assert(!cells.last().dirty);
        lemma_clean_panel_draws_nothing(cells.drop_last());
    }
}

/// Showing an unchanged snapshot again is idle: once a snapshot was written
/// and drawn, writing it a second time marks no cell and leaves every glyph as
/// it was, and drawing a second time yields no command and changes nothing.
pub proof fn lemma_render_idempotent(cells: Seq<Cell>, snapshot: UiSnapshot)
    requires
        cells_wf(cells),
    ensures
        ({
            let shown = cells_after_render(cells_after_update(cells, snapshot));
            &&& cells_after_update(shown, snapshot) == shown
            &&& pending_commands(cells_after_update(shown, snapshot)) == Seq::<
                DrawCommand,
            >::empty()
            &&& cells_after_render(cells_after_update(shown, snapshot)) == shown
        }),
{
    let shown = cells_after_render(cells_after_update(cells, snapshot));
    assert(cells_after_update(shown, snapshot) =~= shown);
    assert(cells_after_render(shown) =~= shown);
    lemma_clean_panel_draws_nothing(shown);
}

} // verus!
