//! The dashboard's state and the operations that change it: selection,
//! display mode, the error slot, and the intake of a new sample.

use crate::gpu::info::{process_count, process_rows, total_processes, GpuInfo};
use crate::history::{pushed, HistoryStore};
use crate::input::Command;
use vstd::prelude::*;

verus! {

/// Everything the dashboard shows. One loop owns and changes it; a renderer
/// only reads it.
#[derive(Debug)]
pub struct AppState {
    /// Row of the process table that is selected.
    pub selected_process: usize,
    /// Position in `gpu_infos` of the device whose graphs are shown in
    /// tabbed mode.
    pub selected_gpu_tab: usize,
    /// The devices of the latest successful sample.
    pub gpu_infos: Vec<GpuInfo>,
    /// The most recent failure, until a newer one replaces it.
    pub error_message: Option<String>,
    pub power_history: HistoryStore,
    pub utilization_history: HistoryStore,
    pub use_tabbed_graphs: bool,
    pub use_bar_charts: bool,
}

/// The metrics of which a history is kept.
pub enum Metric {
    Utilization,
    Power,
}

/// The value of `metric` that `gpu` reports.
pub open spec fn metric_of(gpu: GpuInfo, metric: Metric) -> u64 {
    match metric {
        Metric::Utilization => gpu.utilization as u64,
        Metric::Power => gpu.power_usage as u64,
    }
}

/// A history after one sample of `metric` was pushed for each of `devices`,
/// first device to last, each under its own device index.
pub open spec fn recorded(
    history: Map<usize, Seq<u64>>,
    devices: Seq<GpuInfo>,
    metric: Metric,
) -> Map<usize, Seq<u64>>
    decreases devices.len(),
{
    if devices.len() == 0 {
        history
    } else {
        pushed(
            recorded(history, devices.drop_last(), metric),
            devices.last().index,
            metric_of(devices.last(), metric),
        )
    }
}

/// One step towards the start of a list: down by one, never below zero.
pub open spec fn step_back(index: usize) -> usize {
    if index > 0 {
        (index - 1) as usize
    } else {
        0
    }
}

/// One step towards the end of a list of `count` entries: up by one, never
/// past the last entry. An empty list leaves the index as it is.
pub open spec fn step_forward(index: usize, count: usize) -> usize {
    if count == 0 {
        index
    } else if index < count - 1 {
        (index + 1) as usize
    } else {
        (count - 1) as usize
    }
}

/// The entry of a list of `count` entries nearest to `index`; zero for an
/// empty list.
pub open spec fn clamp_index(index: usize, count: usize) -> usize {
    if count == 0 {
        0
    } else if index < count {
        index
    } else {
        (count - 1) as usize
    }
}

/// The tab after a move to the left; only tabbed mode moves it.
pub open spec fn tab_left(tab: usize, tabbed: bool) -> usize {
    if tabbed {
        step_back(tab)
    } else {
        tab
    }
}

/// The tab after a move to the right among `device_count` devices; only
/// tabbed mode moves it.
pub open spec fn tab_right(tab: usize, device_count: usize, tabbed: bool) -> usize {
    if tabbed {
        step_forward(tab, device_count)
    } else {
        tab
    }
}

/// A request to move the tab, with the display mode in force when it came.
pub struct TabMove {
    pub to_right: bool,
    pub tabbed: bool,
}

/// The tab after `moves` were applied to `tab`, first to last, among
/// `device_count` devices.
pub open spec fn tab_after(tab: usize, moves: Seq<TabMove>, device_count: usize) -> usize
    decreases moves.len(),
{
    if moves.len() == 0 {
        tab
    } else {
        let before = tab_after(tab, moves.drop_last(), device_count);
        if moves.last().to_right {
            tab_right(before, device_count, moves.last().tabbed)
        } else {
            tab_left(before, moves.last().tabbed)
        }
    }
}

/// With an empty process table a selection at the top stays there: moving
/// down leaves it at zero, and moving up leaves it unchanged.
pub proof fn lemma_empty_table_pins_selection(selected: usize)
    requires
        selected == clamp_index(selected, 0),
    ensures
        step_forward(selected, 0) == 0,
        step_back(selected) == selected,
{
}

/// With at least one device, a tab that points at a device keeps pointing
/// at one through any sequence of moves to the left and to the right.
pub proof fn lemma_tab_stays_in_range(tab: usize, moves: Seq<TabMove>, device_count: usize)
    requires
        device_count >= 1,
        tab < device_count,
    ensures
        tab_after(tab, moves, device_count) < device_count,
    decreases moves.len(),
{
    if moves.len() > 0 {
        lemma_tab_stays_in_range(tab, moves.drop_last(), device_count);
    }
}

/// Clamping is idempotent: a clamped index is left alone by a second clamp,
/// so preparing an unchanged state for display again changes nothing.
pub proof fn lemma_clamp_is_idempotent(index: usize, count: usize)
    ensures
        clamp_index(clamp_index(index, count), count) == clamp_index(index, count),
{
}

/// A clamped selection points at a row of the process table whenever the
/// table has one.
pub proof fn lemma_clamped_selection_is_a_row(selected: usize, devices: Seq<GpuInfo>)
    requires
        process_rows(devices).len() > 0,
    ensures
        clamp_index(selected, process_count(devices)) < process_rows(devices).len(),
{
}

/// The state that a navigation or display command leaves behind. Quitting,
/// killing and unbound keys do not change the state.
pub open spec fn applied(state: AppState, command: Command) -> AppState {
    match command {
        Command::ProcessUp => state.with_selected_process(step_back(state.selected_process)),
        Command::ProcessDown => state.with_selected_process(
            step_forward(state.selected_process, process_count(state.gpu_infos@)),
        ),
        Command::TabLeft => state.with_selected_tab(
            tab_left(state.selected_gpu_tab, state.use_tabbed_graphs),
        ),
        Command::TabRight => state.with_selected_tab(
            tab_right(
                state.selected_gpu_tab,
                state.gpu_infos@.len() as usize,
                state.use_tabbed_graphs,
            ),
        ),
        Command::ShowCombined => state.with_display(false, false),
        Command::ShowTabbed => state.with_display(true, false),
        Command::ShowBars => state.with_display(false, true),
        _ => state,
    }
}

/// The state as it is handed to a renderer: the selection clamped to the
/// process table of the current devices.
pub open spec fn shown(state: AppState) -> AppState {
    state.with_selected_process(
        clamp_index(state.selected_process, process_count(state.gpu_infos@)),
    )
}

/// Whether `after` is `before` with a message of the text `text` in the
/// error slot and nothing else changed.
pub open spec fn reports(before: AppState, text: Seq<char>, after: AppState) -> bool {
    &&& after.error_message matches Some(message) && message@ == text
    &&& after.without_error() == before.without_error()
}

/// Preparing a state for display a second time changes nothing.
pub proof fn lemma_showing_is_idempotent(state: AppState)
    ensures
        shown(shown(state)) == shown(state),
{
}

impl AppState {
    /// This state with an empty error slot.
    pub open spec fn without_error(self) -> AppState {
        AppState { error_message: None, ..self }
    }

    /// This state with another selected process.
    pub open spec fn with_selected_process(self, selected: usize) -> AppState {
        AppState { selected_process: selected, ..self }
    }

    /// This state with another selected tab.
    pub open spec fn with_selected_tab(self, tab: usize) -> AppState {
        AppState { selected_gpu_tab: tab, ..self }
    }

    /// This state with another display mode.
    pub open spec fn with_display(self, tabbed: bool, bars: bool) -> AppState {
        AppState { use_tabbed_graphs: tabbed, use_bar_charts: bars, ..self }
    }

    /// This state with `message` in the error slot.
    pub open spec fn with_error(self, message: String) -> AppState {
        AppState { error_message: Some(message), ..self }
    }

    /// The state at startup: no devices, no history, no error, the first
    /// row and the first tab selected, and the display mode as given.
    pub fn new(use_tabbed_graphs: bool, use_bar_charts: bool) -> (state: AppState)
        ensures
            state.selected_process == 0,
            state.selected_gpu_tab == 0,
            state.gpu_infos@ == Seq::<GpuInfo>::empty(),
            state.error_message is None,
            state.power_history@ == Map::<usize, Seq<u64>>::empty(),
            state.utilization_history@ == Map::<usize, Seq<u64>>::empty(),
            state.use_tabbed_graphs == use_tabbed_graphs,
            state.use_bar_charts == use_bar_charts,
    {
        AppState {
            selected_process: 0,
            selected_gpu_tab: 0,
            gpu_infos: Vec::new(),
            error_message: None,
            power_history: HistoryStore::new(),
            utilization_history: HistoryStore::new(),
            use_tabbed_graphs,
            use_bar_charts,
        }
    }

    /// Number of rows in the process table of the current devices.
    pub fn total_processes(&self) -> (total: usize)
        ensures
            total == process_count(self.gpu_infos@),
    {
        total_processes(&self.gpu_infos)
    }

    /// Selects the row above, if there is one.
    pub fn move_process_up(&mut self)
        ensures
            *final(self) == old(self).with_selected_process(step_back(old(self).selected_process)),
    {
        if self.selected_process > 0 {
            self.selected_process -= 1;
        }
    }

    /// Selects the row below in a table of `total_processes` rows; a
    /// selection past the end comes back to the last row, and an empty table
    /// changes nothing.
    pub fn move_process_down(&mut self, total_processes: usize)
        ensures
            *final(self) == old(self).with_selected_process(
                step_forward(old(self).selected_process, total_processes),
            ),
    {
        if total_processes > 0 {
            if self.selected_process < total_processes - 1 {
                self.selected_process += 1;
            } else {
                self.selected_process = total_processes - 1;
            }
        }
    }

    /// Selects the tab to the left; ignored unless graphs are tabbed.
    pub fn move_tab_left(&mut self)
        ensures
            *final(self) == old(self).with_selected_tab(
                tab_left(old(self).selected_gpu_tab, old(self).use_tabbed_graphs),
            ),
    {
        if self.use_tabbed_graphs && self.selected_gpu_tab > 0 {
            self.selected_gpu_tab -= 1;
        }
    }

    /// Selects the tab to the right among `device_count` devices; ignored
    /// unless graphs are tabbed.
    pub fn move_tab_right(&mut self, device_count: usize)
        ensures
            *final(self) == old(self).with_selected_tab(
                tab_right(old(self).selected_gpu_tab, device_count, old(self).use_tabbed_graphs),
            ),
    {
        if self.use_tabbed_graphs && device_count > 0 {
            if self.selected_gpu_tab < device_count - 1 {
                self.selected_gpu_tab += 1;
            } else {
                self.selected_gpu_tab = device_count - 1;
            }
        }
    }

    /// Brings a selection that the latest sample left past the end of the
    /// process table back to the last row (to zero if the table is empty).
    /// To be applied before every rendering.
    pub fn reclamp_selection(&mut self)
        ensures
            *final(self) == shown(*old(self)),
    {
        let total = total_processes(&self.gpu_infos);
        if total == 0 {
            self.selected_process = 0;
        } else if self.selected_process >= total {
            self.selected_process = total - 1;
        }
    }

    /// Carries out a navigation or display command; any other command
    /// leaves the state as it is.
    pub fn apply(&mut self, command: Command)
        ensures
            *final(self) == applied(*old(self), command),
    {
        match command {
            Command::ProcessUp => self.move_process_up(),
            Command::ProcessDown => {
                let total = self.total_processes();
                self.move_process_down(total);
            },
            Command::TabLeft => self.move_tab_left(),
            Command::TabRight => {
                let count = self.gpu_infos.len();
                self.move_tab_right(count);
            },
            Command::ShowCombined => self.set_display(false, false),
            Command::ShowTabbed => self.set_display(true, false),
            Command::ShowBars => self.set_display(false, true),
            _ => {},
        }
    }

    /// Switches the display mode.
    pub fn set_display(&mut self, use_tabbed_graphs: bool, use_bar_charts: bool)
        ensures
            *final(self) == old(self).with_display(use_tabbed_graphs, use_bar_charts),
    {
        self.use_tabbed_graphs = use_tabbed_graphs;
        self.use_bar_charts = use_bar_charts;
    }

    /// Puts `message` in the error slot, replacing what was there.
    pub fn report_error(&mut self, message: String)
        ensures
            *final(self) == old(self).with_error(message),
    {
        self.error_message = Some(message);
    }

    /// Takes in a successful sample: `snapshot` replaces the devices as a
    /// whole, and each of its devices adds its utilization and its power
    /// draw to the histories. Selection, display mode and the error slot
    /// stay as they are.
    pub fn record_sample(&mut self, snapshot: Vec<GpuInfo>)
        ensures
            final(self).gpu_infos == snapshot,
            final(self).utilization_history@ == recorded(
                old(self).utilization_history@,
                snapshot@,
                Metric::Utilization,
            ),
            final(self).power_history@ == recorded(
                old(self).power_history@,
                snapshot@,
                Metric::Power,
            ),
            final(self).selected_process == old(self).selected_process,
            final(self).selected_gpu_tab == old(self).selected_gpu_tab,
            final(self).error_message == old(self).error_message,
            final(self).use_tabbed_graphs == old(self).use_tabbed_graphs,
            final(self).use_bar_charts == old(self).use_bar_charts,
    {
        self.gpu_infos = snapshot;
        let mut i: usize = 0;
        while i < self.gpu_infos.len()
            invariant
                i <= self.gpu_infos.len(),
                self.gpu_infos == snapshot,
                self.utilization_history@ == recorded(
                    old(self).utilization_history@,
                    snapshot@.take(i as int),
                    Metric::Utilization,
                ),
                self.power_history@ == recorded(
                    old(self).power_history@,
                    snapshot@.take(i as int),
                    Metric::Power,
                ),
                self.selected_process == old(self).selected_process,
                self.selected_gpu_tab == old(self).selected_gpu_tab,
                self.error_message == old(self).error_message,
                self.use_tabbed_graphs == old(self).use_tabbed_graphs,
                self.use_bar_charts == old(self).use_bar_charts,
            decreases self.gpu_infos.len() - i,
        {
            let index = self.gpu_infos[i].index;
            let utilization = self.gpu_infos[i].utilization as u64;
            let power = self.gpu_infos[i].power_usage as u64;
            self.utilization_history.push(index, utilization);
            self.power_history.push(index, power);
            proof {
                assert(snapshot@.take(i as int + 1).drop_last() =~= snapshot@.take(i as int));
            }
            i += 1;
        }
        proof {
            assert(snapshot@.take(i as int) =~= snapshot@);
        }
    }
}

} // verus!
