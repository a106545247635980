//! Grid options: the configuration the grid is constructed with.
use vstd::prelude::*;
use crate::convert::ToJsValue;
use crate::serialize::{
    law_all_absent,
    fields_view, optional, optional_data, serialize_struct, struct_entries, FieldEntry, SlotData,
};
use crate::column::ColumnDef;
use crate::serialize::required;
use crate::sort::SortMethod;
use crate::types::{holds_one, holds_str, Callback, OneOrMany, StringMap};
use crate::value::{JsData, JsValue};

verus! {

/// The options of a grid, built with fluent setters. Absent options are left
/// out when they are serialized.
pub struct GridOptions<T> {
    /// Set the column definitions. Fields set here take precedence over those
    /// set in `default_col_def`.
    pub column_defs: Option<Vec<ColumnDef>>,
    /// Set the default column definition. Fields set here have lower precedence
    /// than fields set on a per-column basis in `column_defs`.
    pub default_col_def: Option<ColumnDef>,
    /// Keeps the order of Columns maintained after new Column Definitions are
    /// updated.
    pub maintain_column_order: Option<bool>,
    /// If `true`, then dots in field names (e.g. 'address.firstLine') are not
    /// treated as deep references. Allows you to use dots in your field name if
    /// you prefer.
    pub suppress_field_dot_notation: Option<bool>,
    /// The height in pixels for the row containing the column label header. If
    /// not specified, it uses the theme value of `header-height`.
    pub header_height: Option<u32>,
    /// The height in pixels for the rows containing header column groups. If
    /// not specified, it uses [`GridOptions::header_height`].
    pub group_header_height: Option<u32>,
    /// The height in pixels for the row containing the floating filters. If not
    /// specified, it uses the theme value of `header-height`.
    pub floating_filters_height: Option<u32>,
    /// Set to `true` to suppress column moving, i.e. to make the columns fixed
    /// position.
    pub suppress_movable_columns: Option<bool>,
    /// If `true`, the `ag-column-moving` class is not added to the grid while
    /// columns are moving. In the default themes, this results in no animation
    /// when moving columns.
    pub suppress_column_move_animation: Option<bool>,
    /// If `true`, when you drag a column out of the grid (e.g. to the group
    /// zone) the column is not hidden.
    pub suppress_drag_leave_hides_columns: Option<bool>,
    /// If `true`, when you drag a column into a row group panel the column is
    /// not hidden.
    pub suppress_row_group_hides_columns: Option<bool>,
    /// Set to 'Shift' to have shift-resize as the default resize operation
    /// (same as user holding down `Shift` while resizing).
    pub col_resize_default: Option<ResizeMethod>,
    /// Suppresses auto-sizing columns for columns. In other words, double
    /// clicking a column's header's edge will not auto-size.
    pub suppress_auto_size: Option<bool>,
    /// Number of pixels to add to a column width after the auto-sizing
    /// calculation. Set this if you want to add extra room to accommodate (for
    /// example) sort icons, or some other dynamic nature of the header.
    pub auto_size_padding: Option<u32>,
    /// Set this to `true` to skip the `header_name` when `auto_size` is called
    /// by default.
    pub skip_header_on_auto_size: Option<bool>,
    /// Set to 'FullRow' to enable Full Row Editing. Otherwise leave blank to
    /// edit one cell at a time.
    pub edit_type: Option<EditType>,
    /// Set to `true` to enable Single Click Editing for cells, to start editing
    /// with a single click.
    pub single_click_edit: Option<bool>,
    /// Set to `true` so that neither single nor double click starts editing.
    pub suppress_click_edit: Option<bool>,
    /// Set to `true` to stop cell editing when grid loses focus. The default is
    /// that the grid stays editing until focus goes onto another cell.
    pub stop_editing_when_cells_lose_focus: Option<bool>,
    /// Set to `true` along with [`GridOptions::enter_moves_down_after_edit`] to
    /// have Excel-style behaviour for the `Enter` key, i.e. pressing the
    /// `Enter` key will move down to the cell beneath.
    pub enter_moves_down: Option<bool>,
    /// Set to `true` along with [`GridOptions::enter_moves_down`] to have
    /// Excel-style behaviour for the `Enter` key, i.e. pressing the `Enter` key
    /// will move down to the cell beneath.
    pub enter_moves_down_after_edit: Option<bool>,
    /// Set to `true` to enable Undo / Redo while editing.
    pub undo_redo_cell_editing: Option<bool>,
    /// Set the size of the undo / redo stack.
    pub undo_redo_cell_editing_limit: Option<u32>,
    /// Set to `true` to stop the grid updating data after and edit. When this
    /// is set, it is intended the application will update the data, e.g. in an
    /// external immutable store, and then pass the new dataset to the grid.
    pub read_only_edit: Option<bool>,
    /// Prevent the user from exporting the grid to CSV.
    pub suppress_csv_export: Option<bool>,
    /// Prevent the user from exporting the grid to Excel.
    pub suppress_excel_export: Option<bool>,
    /// Provide a context object that is provided to different callbacks the
    /// grid uses. Used for passing additional information to the callbacks by
    /// your application.
    pub context: Option<StringMap<String>>,
    /// Change this value to set the tabIndex order of the Grid within your
    /// application.
    pub tab_index: Option<u32>,
    /// The number of rows rendered outside the viewable area the grid renders.
    /// Having a buffer means the grid will have rows ready to show as the user
    /// slowly scrolls vertically.
    pub row_buffer: Option<u32>,
    /// Set to `true` to enable debug information from the grid and related
    /// components. Will result in additional logging being output, but very
    /// useful when investigating problems.
    pub debug: Option<bool>,
    /// Set whether pagination is enabled.
    pub pagination: Option<bool>,
    /// How many rows to load per page. If
    /// [`GridOptions::pagination_auto_page_size`] is specified, this property
    /// is ignored.
    pub pagination_page_size: Option<u32>,
    /// Set to `true` so that the number of rows to load per page is
    /// automatically adjusted by the grid so each page shows enough rows to
    /// just fill the area designated for the grid. If `false`,
    /// [#GridOption::pagination_page_size`] is used.
    pub pagination_auto_page_size: Option<bool>,
    /// Set to `true` to have pages split children of groups when using Row
    /// Grouping or detail rows with Master Detail.
    pub paginate_child_rows: Option<bool>,
    /// If `true`, the default grid controls for navigation are hidden. This is
    /// useful if `pagination=true` and you want to provide your own pagination
    /// controls. Otherwise, when `pagination=true` the grid automatically shows
    /// the necessary controls at the bottom so that the user can navigate
    /// through the different pages.
    pub suppress_pagination_panel: Option<bool>,
    /// Set to `true` to enable Row Animation.
    pub animate_rows: Option<bool>,
    /// Set to `true` to have cells flash after data changes.
    pub enable_cell_change_flash: Option<bool>,
    /// To be used in combination with
    /// [`GridOptions::enable_cell_change_flash`], this configuration
    /// will set the delay in milliseconds of how long a cell should remain in
    /// its "flashed" state.
    pub cell_flash_delay: Option<u32>,
    /// To be used in combination with
    /// [`GridOptions::enable_cell_change_flash`], this configuration
    /// will set the delay in milliseconds of how long the "flashed" state
    /// animation takes to fade away after the timer set by
    /// [`GridOptions::cell_flash_delay`] has completed.
    pub cell_fade_delay: Option<u32>,
    /// Set to `true` to have cells flash after data changes even when the
    /// change is due to filtering.
    pub allow_show_change_after_filter: Option<bool>,
    /// Switch between layout options.
    pub dom_layout: Option<DomLayout>,
    /// When `true`, the order of rows and columns in the DOM are consistent
    /// with what is on screen.
    pub ensure_dom_order: Option<bool>,
    /// Set to `true` to operate the grid in RTL (Right to Left) mode.
    pub enable_rtl: Option<bool>,
    /// Set to `true` so that the grid doesn't virtualise the columns. For
    /// example, if you have 100 columns, but only 10 visible due to scrolling,
    /// all 100 will always be rendered.
    pub suppress_column_virtualisation: Option<bool>,
    /// Set to `true` so that the grid doesn't virtualise the rows. For example,
    /// if you have 100 rows, but only 10 visible due to scrolling, all 100 will
    /// always be rendered.
    pub suppress_row_virtualisation: Option<bool>,
    /// By default the grid has a limit of rendering a maximum of 500 rows at
    /// once (remember the grid only renders rows you can see, so unless your
    /// display shows more than 500 rows without vertically scrolling this will
    /// never be an issue). This is only relevant if you are manually setting
    /// [`GridOptions::row_buffer`] to a high value (rendering more rows than
    /// can be seen) or if your grid height is able to display more than 500
    /// rows at once.
    pub suppress_max_rendered_row_restriction: Option<bool>,
    /// Set to `true` to enable Managed Row Dragging.
    pub row_drag_managed: Option<bool>,
    /// Set to `true` to enable clicking and dragging anywhere on the row
    /// without the need for a drag handle.
    pub row_drag_entire_row: Option<bool>,
    /// Set to `true` to enable dragging multiple rows at the same time.
    pub row_drag_multi_row: Option<bool>,
    /// Set to `true` to suppress row dragging.
    pub suppress_row_drag: Option<bool>,
    /// Set to `true` to suppress moving rows while dragging the row drag
    /// waffle. This option highlights the position where the row will be
    /// placed and it will only move the row on mouse up.
    pub suppress_move_when_row_dragging: Option<bool>,
    /// Sets the row model type.
    pub row_model_type: Option<RowModelType>,
    /// Set the row data.
    pub row_data: Option<Vec<T>>,
    pub datasource: Option<DataSource>,
    /// How many extra blank rows to display to the user at the end of the
    /// dataset, which sets the vertical scroll and then allows the grid to
    /// request viewing more rows of data.
    pub cache_overflow_size: Option<u32>,
    /// How many requests to hit the server with concurrently. If the max is
    /// reached, requests are queued. Set to `-1` for no maximum restriction on
    /// requests.
    pub max_concurrent_datasource_requests: Option<i32>,
    /// How many rows for each block in the store, i.e. how many rows returned
    /// from the server at a time.
    pub cache_block_size: Option<u32>,
    /// How many blocks to keep in the store. Default is no limit, so every
    /// requested block is kept. Use this if you have memory concerns, and
    /// blocks that were least recently viewed will be purged when the limit is
    /// hit. The grid will additionally make sure it has all the blocks needed
    /// to display what is currently visible, in case this property is set to a
    /// low value.
    pub max_blocks_in_cache: Option<u32>,
    /// How many extra blank rows to display to the user at the end of the
    /// dataset, which sets the vertical scroll and then allows the grid to
    /// request viewing more rows of data.
    pub infinite_initial_row_count: Option<u32>,
    /// Set to `true` to always show the horizontal scrollbar.
    pub always_show_horizontal_scroll: Option<bool>,
    /// Set to `true` to always show the vertical scrollbar.
    pub always_show_vertical_scroll: Option<bool>,
    /// Set to `true` to debounce the vertical scrollbar. Can provide smoother
    /// scrolling on slow machines.
    pub debounce_vertical_scrollbar: Option<bool>,
    /// Set to `true` to never show the horizontal scroll. This is useful if the
    /// grid is aligned with another grid and will scroll when the other grid
    /// scrolls. (Should not be used in combination with
    /// [`GridOptions::always_show_horizontal_scroll`].)
    pub suppress_horizontal_scroll: Option<bool>,
    /// When `true`, the grid will not scroll to the top when new row data is
    /// provided. Use this if you don't want the default behaviour of scrolling
    /// to the top every time you load new data.
    pub suppress_scroll_on_new_data: Option<bool>,
    /// When `true`, the grid will not allow mousewheel/touchpad scroll when
    /// popup elements are present.
    pub suppress_scroll_when_popups_are_open: Option<bool>,
    /// When `true`, the grid will not use animation frames when drawing rows
    /// while scrolling. Use this if the grid is working fast enough that you
    /// don't need animation frames and you don't want the grid to flicker.
    pub suppress_animation_frame: Option<bool>,
    /// When `true`, middle clicks will result in click events for cells and
    /// rows. Otherwise the browser will use middle click to scroll the grid.
    /// Note: Not all browsers fire click events with the middle button. Most
    /// will fire only mousedown and mouseup events, which can be used to focus
    /// a cell, but will not work to call the onCellClicked function.
    pub suppress_middle_click_scrolls: Option<bool>,
    /// When `true`, mouse wheel events will be passed to the browser. Useful if
    /// your grid has no vertical scrolls and you want the mouse to scroll the
    /// browser page.
    pub suppress_prevent_default_on_mouse_wheel: Option<bool>,
    /// Tell the grid how wide in pixels the scrollbar is, which is used in grid
    /// width calculations. Set only if using non-standard browser-provided
    /// scrollbars, so the grid can use the non-standard size in its
    /// calculations.
    pub scrollbar_width: Option<u32>,
    /// Type of row selection.
    pub row_selection: Option<RowSelection>,
    /// Set to `true` to allow multiple rows to be selected using single click.
    pub row_multi_select_with_click: Option<bool>,
    /// If `true`, rows will not be deselected if you hold down `Ctrl` and click
    /// the row or press `Space`.
    pub suppress_row_deselection: Option<bool>,
    /// If `true`, row selection won't happen when rows are clicked. Use when
    /// you only want checkbox selection.
    pub suppress_row_click_selection: Option<bool>,
    /// If `true`, cells won't be focusable. This means keyboard navigation will
    /// be disabled for grid cells, but remain enabled in other elements of the
    /// grid such as column headers, floating filters, tool panels.
    pub suppress_cell_focus: Option<bool>,
    /// Set to `true` to be able to select the text within cells. Note: When
    /// this is set to true, the clipboard service is disabled.
    pub enable_cell_text_selection: Option<bool>,
    /// Vector defining the order in which sorting occurs (if sorting is
    /// enabled).
    pub sorting_order: Option<Vec<SortMethod>>,
    /// Set to `true` to specify that the sort should take accented characters
    /// into account. If this feature is turned on the sort will be slower.
    pub accented_sort: Option<bool>,
    /// Set to `true` to show the 'no sort' icon.
    pub unsort_icon: Option<bool>,
    /// Set to `true` to suppress multi-sort when the user shift-clicks a column
    /// header.
    pub suppress_multi_sort: Option<bool>,
    /// Set to `true` to always multi-sort when the user clicks a column header,
    /// regardless of key presses.
    pub always_multi_sort: Option<bool>,
    /// Set to 'Ctrl' to have multi sorting work using the `Ctrl` (or `Command`
    /// for Mac) key.
    pub multi_sort_key: Option<MultiSortKey>,
    /// Set to `true` to suppress sorting of un-sorted data to keep the order of the
    /// row data.
    pub suppress_maintain_unsorted_order: Option<bool>,
    /// When enabled, sorts only the rows added/updated by a transaction.
    pub delta_sort: Option<bool>,
    /// Default row height in pixels.
    pub row_height: Option<u32>,
    /// CSS class(es) for all rows. Provide either a string (class name) or
    /// vector of strings (vector of class names).
    pub row_class: Option<OneOrMany<String>>,
    /// Set to `true` to not highlight rows by adding the `ag-row-hover` CSS
    /// class.
    pub suppress_row_hover_highlight: Option<bool>,
    /// Uses CSS `top` instead of CSS `transform` for positioning rows. Useful
    /// if the transform function is causing issues such as used in `row
    /// spanning`.
    pub suppress_row_transform: Option<bool>,
    /// Set to `true` to highlight columns by adding the `ag-column-hover` CSS
    /// class.
    pub column_hover_highlight: Option<bool>,
    /// Set to `true` to use the browser's default tooltip instead of using the
    /// grid's Tooltip Component.
    pub enable_browser_tooltips: Option<bool>,
    /// The delay in milliseconds that it takes for tooltips to show up once an
    /// element is hovered over. Note: This property does not work if
    /// [`GridOptions::enable_browser_tooltips`] is `true`.
    pub tooltip_show_delay: Option<u32>,
    /// The delay in milliseconds that it takes for tooltips to hide once they
    /// have been displayed. Note: This property does not work if
    /// [`GridOptions::enable_browser_tooltips`] is `true`.
    pub tooltip_hide_delay: Option<u32>,
    /// Set to `true` to have tooltips follow the cursor once they are
    /// displayed.
    pub tooltip_mouse_track: Option<bool>,
}

impl<T: ToJsValue> GridOptions<T> {
    /// Every option is absent.
    pub open spec fn is_unset(&self) -> bool {
        &&& self.column_defs is None
        &&& self.default_col_def is None
        &&& self.maintain_column_order is None
        &&& self.suppress_field_dot_notation is None
        &&& self.header_height is None
        &&& self.group_header_height is None
        &&& self.floating_filters_height is None
        &&& self.suppress_movable_columns is None
        &&& self.suppress_column_move_animation is None
        &&& self.suppress_drag_leave_hides_columns is None
        &&& self.suppress_row_group_hides_columns is None
        &&& self.col_resize_default is None
        &&& self.suppress_auto_size is None
        &&& self.auto_size_padding is None
        &&& self.skip_header_on_auto_size is None
        &&& self.edit_type is None
        &&& self.single_click_edit is None
        &&& self.suppress_click_edit is None
        &&& self.stop_editing_when_cells_lose_focus is None
        &&& self.enter_moves_down is None
        &&& self.enter_moves_down_after_edit is None
        &&& self.undo_redo_cell_editing is None
        &&& self.undo_redo_cell_editing_limit is None
        &&& self.read_only_edit is None
        &&& self.suppress_csv_export is None
        &&& self.suppress_excel_export is None
        &&& self.context is None
        &&& self.tab_index is None
        &&& self.row_buffer is None
        &&& self.debug is None
        &&& self.pagination is None
        &&& self.pagination_page_size is None
        &&& self.pagination_auto_page_size is None
        &&& self.paginate_child_rows is None
        &&& self.suppress_pagination_panel is None
        &&& self.animate_rows is None
        &&& self.enable_cell_change_flash is None
        &&& self.cell_flash_delay is None
        &&& self.cell_fade_delay is None
        &&& self.allow_show_change_after_filter is None
        &&& self.dom_layout is None
        &&& self.ensure_dom_order is None
        &&& self.enable_rtl is None
        &&& self.suppress_column_virtualisation is None
        &&& self.suppress_row_virtualisation is None
        &&& self.suppress_max_rendered_row_restriction is None
        &&& self.row_drag_managed is None
        &&& self.row_drag_entire_row is None
        &&& self.row_drag_multi_row is None
        &&& self.suppress_row_drag is None
        &&& self.suppress_move_when_row_dragging is None
        &&& self.row_model_type is None
        &&& self.row_data is None
        &&& self.datasource is None
        &&& self.cache_overflow_size is None
        &&& self.max_concurrent_datasource_requests is None
        &&& self.cache_block_size is None
        &&& self.max_blocks_in_cache is None
        &&& self.infinite_initial_row_count is None
        &&& self.always_show_horizontal_scroll is None
        &&& self.always_show_vertical_scroll is None
        &&& self.debounce_vertical_scrollbar is None
        &&& self.suppress_horizontal_scroll is None
        &&& self.suppress_scroll_on_new_data is None
        &&& self.suppress_scroll_when_popups_are_open is None
        &&& self.suppress_animation_frame is None
        &&& self.suppress_middle_click_scrolls is None
        &&& self.suppress_prevent_default_on_mouse_wheel is None
        &&& self.scrollbar_width is None
        &&& self.row_selection is None
        &&& self.row_multi_select_with_click is None
        &&& self.suppress_row_deselection is None
        &&& self.suppress_row_click_selection is None
        &&& self.suppress_cell_focus is None
        &&& self.enable_cell_text_selection is None
        &&& self.sorting_order is None
        &&& self.accented_sort is None
        &&& self.unsort_icon is None
        &&& self.suppress_multi_sort is None
        &&& self.always_multi_sort is None
        &&& self.multi_sort_key is None
        &&& self.suppress_maintain_unsorted_order is None
        &&& self.delta_sort is None
        &&& self.row_height is None
        &&& self.row_class is None
        &&& self.suppress_row_hover_highlight is None
        &&& self.suppress_row_transform is None
        &&& self.column_hover_highlight is None
        &&& self.enable_browser_tooltips is None
        &&& self.tooltip_show_delay is None
        &&& self.tooltip_hide_delay is None
        &&& self.tooltip_mouse_track is None
    }

    /// The options under their serialized keys, in declaration order.
    pub open spec fn field_slots(&self) -> Seq<(Seq<char>, SlotData)> {
        seq![
            ("columnDefs"@, optional_data(self.column_defs)),
            ("defaultColDef"@, optional_data(self.default_col_def)),
            ("maintainColumnOrder"@, optional_data(self.maintain_column_order)),
            ("suppressFieldDotNotation"@, optional_data(self.suppress_field_dot_notation)),
            ("headerHeight"@, optional_data(self.header_height)),
            ("groupHeaderHeight"@, optional_data(self.group_header_height)),
            ("floatingFiltersHeight"@, optional_data(self.floating_filters_height)),
            ("suppressMovableColumns"@, optional_data(self.suppress_movable_columns)),
            ("suppressColumnMoveAnimation"@, optional_data(self.suppress_column_move_animation)),
            ("suppressDragLeaveHidesColumns"@, optional_data(self.suppress_drag_leave_hides_columns)),
            ("suppressRowGroupHidesColumns"@, optional_data(self.suppress_row_group_hides_columns)),
            ("colResizeDefault"@, optional_data(self.col_resize_default)),
            ("suppressAutoSize"@, optional_data(self.suppress_auto_size)),
            ("autoSizePadding"@, optional_data(self.auto_size_padding)),
            ("skipHeaderOnAutoSize"@, optional_data(self.skip_header_on_auto_size)),
            ("editType"@, optional_data(self.edit_type)),
            ("singleClickEdit"@, optional_data(self.single_click_edit)),
            ("suppressClickEdit"@, optional_data(self.suppress_click_edit)),
            ("stopEditingWhenCellsLoseFocus"@, optional_data(self.stop_editing_when_cells_lose_focus)),
            ("enterMovesDown"@, optional_data(self.enter_moves_down)),
            ("enterMovesDownAfterEdit"@, optional_data(self.enter_moves_down_after_edit)),
            ("undoRedoCellEditing"@, optional_data(self.undo_redo_cell_editing)),
            ("undoRedoCellEditingLimit"@, optional_data(self.undo_redo_cell_editing_limit)),
            ("readOnlyEdit"@, optional_data(self.read_only_edit)),
            ("suppressCsvExport"@, optional_data(self.suppress_csv_export)),
            ("suppressExcelExport"@, optional_data(self.suppress_excel_export)),
            ("context"@, optional_data(self.context)),
            ("tabIndex"@, optional_data(self.tab_index)),
            ("rowBuffer"@, optional_data(self.row_buffer)),
            ("debug"@, optional_data(self.debug)),
            ("pagination"@, optional_data(self.pagination)),
            ("paginationPageSize"@, optional_data(self.pagination_page_size)),
            ("paginationAutoPageSize"@, optional_data(self.pagination_auto_page_size)),
            ("paginateChildRows"@, optional_data(self.paginate_child_rows)),
            ("suppressPaginationPanel"@, optional_data(self.suppress_pagination_panel)),
            ("animateRows"@, optional_data(self.animate_rows)),
            ("enableCellChangeFlash"@, optional_data(self.enable_cell_change_flash)),
            ("cellFlashDelay"@, optional_data(self.cell_flash_delay)),
            ("cellFadeDelay"@, optional_data(self.cell_fade_delay)),
            ("allowShowChangeAfterFilter"@, optional_data(self.allow_show_change_after_filter)),
            ("domLayout"@, optional_data(self.dom_layout)),
            ("ensureDomOrder"@, optional_data(self.ensure_dom_order)),
            ("enableRtl"@, optional_data(self.enable_rtl)),
            ("suppressColumnVirtualisation"@, optional_data(self.suppress_column_virtualisation)),
            ("suppressRowVirtualisation"@, optional_data(self.suppress_row_virtualisation)),
            ("suppressMaxRenderedRowRestriction"@, optional_data(self.suppress_max_rendered_row_restriction)),
            ("rowDragManaged"@, optional_data(self.row_drag_managed)),
            ("rowDragEntireRow"@, optional_data(self.row_drag_entire_row)),
            ("rowDragMultiRow"@, optional_data(self.row_drag_multi_row)),
            ("suppressRowDrag"@, optional_data(self.suppress_row_drag)),
            ("suppressMoveWhenRowDragging"@, optional_data(self.suppress_move_when_row_dragging)),
            ("rowModelType"@, optional_data(self.row_model_type)),
            ("rowData"@, optional_data(self.row_data)),
            ("datasource"@, optional_data(self.datasource)),
            ("cacheOverflowSize"@, optional_data(self.cache_overflow_size)),
            ("maxConcurrentDatasourceRequests"@, optional_data(self.max_concurrent_datasource_requests)),
            ("cacheBlockSize"@, optional_data(self.cache_block_size)),
            ("maxBlocksInCache"@, optional_data(self.max_blocks_in_cache)),
            ("infiniteInitialRowCount"@, optional_data(self.infinite_initial_row_count)),
            ("alwaysShowHorizontalScroll"@, optional_data(self.always_show_horizontal_scroll)),
            ("alwaysShowVerticalScroll"@, optional_data(self.always_show_vertical_scroll)),
            ("debounceVerticalScrollbar"@, optional_data(self.debounce_vertical_scrollbar)),
            ("suppressHorizontalScroll"@, optional_data(self.suppress_horizontal_scroll)),
            ("suppressScrollOnNewData"@, optional_data(self.suppress_scroll_on_new_data)),
            ("suppressScrollWhenPopupsAreOpen"@, optional_data(self.suppress_scroll_when_popups_are_open)),
            ("suppressAnimationFrame"@, optional_data(self.suppress_animation_frame)),
            ("suppressMiddleClickScrolls"@, optional_data(self.suppress_middle_click_scrolls)),
            ("suppressPreventDefaultOnMouseWheel"@, optional_data(self.suppress_prevent_default_on_mouse_wheel)),
            ("scrollbarWidth"@, optional_data(self.scrollbar_width)),
            ("rowSelection"@, optional_data(self.row_selection)),
            ("rowMultiSelectWithClick"@, optional_data(self.row_multi_select_with_click)),
            ("suppressRowDeselection"@, optional_data(self.suppress_row_deselection)),
            ("suppressRowClickSelection"@, optional_data(self.suppress_row_click_selection)),
            ("suppressCellFocus"@, optional_data(self.suppress_cell_focus)),
            ("enableCellTextSelection"@, optional_data(self.enable_cell_text_selection)),
            ("sortingOrder"@, optional_data(self.sorting_order)),
            ("accentedSort"@, optional_data(self.accented_sort)),
            ("unSortIcon"@, optional_data(self.unsort_icon)),
            ("suppressMultiSort"@, optional_data(self.suppress_multi_sort)),
            ("alwaysMultiSort"@, optional_data(self.always_multi_sort)),
            ("multiSortKey"@, optional_data(self.multi_sort_key)),
            ("suppressMaintainUnsortedOrder"@, optional_data(self.suppress_maintain_unsorted_order)),
            ("deltaSort"@, optional_data(self.delta_sort)),
            ("rowHeight"@, optional_data(self.row_height)),
            ("rowClass"@, optional_data(self.row_class)),
            ("suppressRowHoverHighlight"@, optional_data(self.suppress_row_hover_highlight)),
            ("suppressRowTransform"@, optional_data(self.suppress_row_transform)),
            ("columnHoverHighlight"@, optional_data(self.column_hover_highlight)),
            ("enableBrowserTooltips"@, optional_data(self.enable_browser_tooltips)),
            ("tooltipShowDelay"@, optional_data(self.tooltip_show_delay)),
            ("tooltipHideDelay"@, optional_data(self.tooltip_hide_delay)),
            ("tooltipMouseTrack"@, optional_data(self.tooltip_mouse_track)),
        ]
    }

    /// Grid options with every option absent.
    pub fn new() -> (r: GridOptions<T>)
        ensures
            r.is_unset(),
    {
        GridOptions {
            column_defs: None,
            default_col_def: None,
            maintain_column_order: None,
            suppress_field_dot_notation: None,
            header_height: None,
            group_header_height: None,
            floating_filters_height: None,
            suppress_movable_columns: None,
            suppress_column_move_animation: None,
            suppress_drag_leave_hides_columns: None,
            suppress_row_group_hides_columns: None,
            col_resize_default: None,
            suppress_auto_size: None,
            auto_size_padding: None,
            skip_header_on_auto_size: None,
            edit_type: None,
            single_click_edit: None,
            suppress_click_edit: None,
            stop_editing_when_cells_lose_focus: None,
            enter_moves_down: None,
            enter_moves_down_after_edit: None,
            undo_redo_cell_editing: None,
            undo_redo_cell_editing_limit: None,
            read_only_edit: None,
            suppress_csv_export: None,
            suppress_excel_export: None,
            context: None,
            tab_index: None,
            row_buffer: None,
            debug: None,
            pagination: None,
            pagination_page_size: None,
            pagination_auto_page_size: None,
            paginate_child_rows: None,
            suppress_pagination_panel: None,
            animate_rows: None,
            enable_cell_change_flash: None,
            cell_flash_delay: None,
            cell_fade_delay: None,
            allow_show_change_after_filter: None,
            dom_layout: None,
            ensure_dom_order: None,
            enable_rtl: None,
            suppress_column_virtualisation: None,
            suppress_row_virtualisation: None,
            suppress_max_rendered_row_restriction: None,
            row_drag_managed: None,
            row_drag_entire_row: None,
            row_drag_multi_row: None,
            suppress_row_drag: None,
            suppress_move_when_row_dragging: None,
            row_model_type: None,
            row_data: None,
            datasource: None,
            cache_overflow_size: None,
            max_concurrent_datasource_requests: None,
            cache_block_size: None,
            max_blocks_in_cache: None,
            infinite_initial_row_count: None,
            always_show_horizontal_scroll: None,
            always_show_vertical_scroll: None,
            debounce_vertical_scrollbar: None,
            suppress_horizontal_scroll: None,
            suppress_scroll_on_new_data: None,
            suppress_scroll_when_popups_are_open: None,
            suppress_animation_frame: None,
            suppress_middle_click_scrolls: None,
            suppress_prevent_default_on_mouse_wheel: None,
            scrollbar_width: None,
            row_selection: None,
            row_multi_select_with_click: None,
            suppress_row_deselection: None,
            suppress_row_click_selection: None,
            suppress_cell_focus: None,
            enable_cell_text_selection: None,
            sorting_order: None,
            accented_sort: None,
            unsort_icon: None,
            suppress_multi_sort: None,
            always_multi_sort: None,
            multi_sort_key: None,
            suppress_maintain_unsorted_order: None,
            delta_sort: None,
            row_height: None,
            row_class: None,
            suppress_row_hover_highlight: None,
            suppress_row_transform: None,
            column_hover_highlight: None,
            enable_browser_tooltips: None,
            tooltip_show_delay: None,
            tooltip_hide_delay: None,
            tooltip_mouse_track: None,
        }
    }

    /// Set the column definitions. Fields set here take precedence over those
    /// set in `default_col_def`.
    pub fn column_defs(self, value: Vec<ColumnDef>) -> (r: Self)
        ensures
            r == (GridOptions { column_defs: Some(value), ..self }),
    {
        let mut s = self;
        s.column_defs = Some(value);
        s
    }

    /// Set the default column definition. Fields set here have lower precedence
    /// than fields set on a per-column basis in `column_defs`.
    pub fn default_col_def(self, value: ColumnDef) -> (r: Self)
        ensures
            r == (GridOptions { default_col_def: Some(value), ..self }),
    {
        let mut s = self;
        s.default_col_def = Some(value);
        s
    }

    /// Keeps the order of Columns maintained after new Column Definitions are
    /// updated.
    pub fn maintain_column_order(self, value: bool) -> (r: Self)
        ensures
            r == (GridOptions { maintain_column_order: Some(value), ..self }),
    {
        let mut s = self;
        s.maintain_column_order = Some(value);
        s
    }

    /// If `true`, then dots in field names (e.g. 'address.firstLine') are not
    /// treated as deep references. Allows you to use dots in your field name if
    /// you prefer.
    pub fn suppress_field_dot_notation(self, value: bool) -> (r: Self)
        ensures
            r == (GridOptions { suppress_field_dot_notation: Some(value), ..self }),
    {
        let mut s = self;
        s.suppress_field_dot_notation = Some(value);
        s
    }

    /// The height in pixels for the row containing the column label header. If
    /// not specified, it uses the theme value of `header-height`.
    pub fn header_height(self, value: u32) -> (r: Self)
        ensures
            r == (GridOptions { header_height: Some(value), ..self }),
    {
        let mut s = self;
        s.header_height = Some(value);
        s
    }

    /// The height in pixels for the rows containing header column groups. If
    /// not specified, it uses [`GridOptions::header_height`].
    pub fn group_header_height(self, value: u32) -> (r: Self)
        ensures
            r == (GridOptions { group_header_height: Some(value), ..self }),
    {
        let mut s = self;
        s.group_header_height = Some(value);
        s
    }

    /// The height in pixels for the row containing the floating filters. If not
    /// specified, it uses the theme value of `header-height`.
    pub fn floating_filters_height(self, value: u32) -> (r: Self)
        ensures
            r == (GridOptions { floating_filters_height: Some(value), ..self }),
    {
        let mut s = self;
        s.floating_filters_height = Some(value);
        s
    }

    /// Set to `true` to suppress column moving, i.e. to make the columns fixed
    /// position.
    pub fn suppress_movable_columns(self, value: bool) -> (r: Self)
        ensures
            r == (GridOptions { suppress_movable_columns: Some(value), ..self }),
    {
        let mut s = self;
        s.suppress_movable_columns = Some(value);
        s
    }

    /// If `true`, the `ag-column-moving` class is not added to the grid while
    /// columns are moving. In the default themes, this results in no animation
    /// when moving columns.
    pub fn suppress_column_move_animation(self, value: bool) -> (r: Self)
        ensures
            r == (GridOptions { suppress_column_move_animation: Some(value), ..self }),
    {
        let mut s = self;
        s.suppress_column_move_animation = Some(value);
        s
    }

    /// If `true`, when you drag a column out of the grid (e.g. to the group
    /// zone) the column is not hidden.
    pub fn suppress_drag_leave_hides_columns(self, value: bool) -> (r: Self)
        ensures
            r == (GridOptions { suppress_drag_leave_hides_columns: Some(value), ..self }),
    {
        let mut s = self;
        s.suppress_drag_leave_hides_columns = Some(value);
        s
    }

    /// If `true`, when you drag a column into a row group panel the column is
    /// not hidden.
    pub fn suppress_row_group_hides_columns(self, value: bool) -> (r: Self)
        ensures
            r == (GridOptions { suppress_row_group_hides_columns: Some(value), ..self }),
    {
        let mut s = self;
        s.suppress_row_group_hides_columns = Some(value);
        s
    }

    /// Set to 'Shift' to have shift-resize as the default resize operation
    /// (same as user holding down `Shift` while resizing).
    pub fn col_resize_default(self, value: ResizeMethod) -> (r: Self)
        ensures
            r == (GridOptions { col_resize_default: Some(value), ..self }),
    {
        let mut s = self;
        s.col_resize_default = Some(value);
        s
    }

    /// Suppresses auto-sizing columns for columns. In other words, double
    /// clicking a column's header's edge will not auto-size.
    pub fn suppress_auto_size(self, value: bool) -> (r: Self)
        ensures
            r == (GridOptions { suppress_auto_size: Some(value), ..self }),
    {
        let mut s = self;
        s.suppress_auto_size = Some(value);
        s
    }

    /// Number of pixels to add to a column width after the auto-sizing
    /// calculation. Set this if you want to add extra room to accommodate (for
    /// example) sort icons, or some other dynamic nature of the header.
    pub fn auto_size_padding(self, value: u32) -> (r: Self)
        ensures
            r == (GridOptions { auto_size_padding: Some(value), ..self }),
    {
        let mut s = self;
        s.auto_size_padding = Some(value);
        s
    }

    /// Set this to `true` to skip the `header_name` when `auto_size` is called
    /// by default.
    pub fn skip_header_on_auto_size(self, value: bool) -> (r: Self)
        ensures
            r == (GridOptions { skip_header_on_auto_size: Some(value), ..self }),
    {
        let mut s = self;
        s.skip_header_on_auto_size = Some(value);
        s
    }

    /// Set to 'FullRow' to enable Full Row Editing. Otherwise leave blank to
    /// edit one cell at a time.
    pub fn edit_type(self, value: EditType) -> (r: Self)
        ensures
            r == (GridOptions { edit_type: Some(value), ..self }),
    {
        let mut s = self;
        s.edit_type = Some(value);
        s
    }

    /// Set to `true` to enable Single Click Editing for cells, to start editing
    /// with a single click.
    pub fn single_click_edit(self, value: bool) -> (r: Self)
        ensures
            r == (GridOptions { single_click_edit: Some(value), ..self }),
    {
        let mut s = self;
        s.single_click_edit = Some(value);
        s
    }

    /// Set to `true` so that neither single nor double click starts editing.
    pub fn suppress_click_edit(self, value: bool) -> (r: Self)
        ensures
            r == (GridOptions { suppress_click_edit: Some(value), ..self }),
    {
        let mut s = self;
        s.suppress_click_edit = Some(value);
        s
    }

    /// Set to `true` to stop cell editing when grid loses focus. The default is
    /// that the grid stays editing until focus goes onto another cell.
    pub fn stop_editing_when_cells_lose_focus(self, value: bool) -> (r: Self)
        ensures
            r == (GridOptions { stop_editing_when_cells_lose_focus: Some(value), ..self }),
    {
        let mut s = self;
        s.stop_editing_when_cells_lose_focus = Some(value);
        s
    }

    /// Set to `true` along with [`GridOptions::enter_moves_down_after_edit`] to
    /// have Excel-style behaviour for the `Enter` key, i.e. pressing the
    /// `Enter` key will move down to the cell beneath.
    pub fn enter_moves_down(self, value: bool) -> (r: Self)
        ensures
            r == (GridOptions { enter_moves_down: Some(value), ..self }),
    {
        let mut s = self;
        s.enter_moves_down = Some(value);
        s
    }

    /// Set to `true` along with [`GridOptions::enter_moves_down`] to have
    /// Excel-style behaviour for the `Enter` key, i.e. pressing the `Enter` key
    /// will move down to the cell beneath.
    pub fn enter_moves_down_after_edit(self, value: bool) -> (r: Self)
        ensures
            r == (GridOptions { enter_moves_down_after_edit: Some(value), ..self }),
    {
        let mut s = self;
        s.enter_moves_down_after_edit = Some(value);
        s
    }

    /// Set to `true` to enable Undo / Redo while editing.
    pub fn undo_redo_cell_editing(self, value: bool) -> (r: Self)
        ensures
            r == (GridOptions { undo_redo_cell_editing: Some(value), ..self }),
    {
        let mut s = self;
        s.undo_redo_cell_editing = Some(value);
        s
    }

    /// Set the size of the undo / redo stack.
    pub fn undo_redo_cell_editing_limit(self, value: u32) -> (r: Self)
        ensures
            r == (GridOptions { undo_redo_cell_editing_limit: Some(value), ..self }),
    {
        let mut s = self;
        s.undo_redo_cell_editing_limit = Some(value);
        s
    }

    /// Set to `true` to stop the grid updating data after and edit. When this
    /// is set, it is intended the application will update the data, e.g. in an
    /// external immutable store, and then pass the new dataset to the grid.
    pub fn read_only_edit(self, value: bool) -> (r: Self)
        ensures
            r == (GridOptions { read_only_edit: Some(value), ..self }),
    {
        let mut s = self;
        s.read_only_edit = Some(value);
        s
    }

    /// Prevent the user from exporting the grid to CSV.
    pub fn suppress_csv_export(self, value: bool) -> (r: Self)
        ensures
            r == (GridOptions { suppress_csv_export: Some(value), ..self }),
    {
        let mut s = self;
        s.suppress_csv_export = Some(value);
        s
    }

    /// Prevent the user from exporting the grid to Excel.
    pub fn suppress_excel_export(self, value: bool) -> (r: Self)
        ensures
            r == (GridOptions { suppress_excel_export: Some(value), ..self }),
    {
        let mut s = self;
        s.suppress_excel_export = Some(value);
        s
    }

    /// Provide a context object that is provided to different callbacks the
    /// grid uses. Used for passing additional information to the callbacks by
    /// your application.
    pub fn context(self, value: StringMap<String>) -> (r: Self)
        ensures
            r == (GridOptions { context: Some(value), ..self }),
    {
        let mut s = self;
        s.context = Some(value);
        s
    }

    /// Change this value to set the tabIndex order of the Grid within your
    /// application.
    pub fn tab_index(self, value: u32) -> (r: Self)
        ensures
            r == (GridOptions { tab_index: Some(value), ..self }),
    {
        let mut s = self;
        s.tab_index = Some(value);
        s
    }

    /// The number of rows rendered outside the viewable area the grid renders.
    /// Having a buffer means the grid will have rows ready to show as the user
    /// slowly scrolls vertically.
    pub fn row_buffer(self, value: u32) -> (r: Self)
        ensures
            r == (GridOptions { row_buffer: Some(value), ..self }),
    {
        let mut s = self;
        s.row_buffer = Some(value);
        s
    }

    /// Set to `true` to enable debug information from the grid and related
    /// components. Will result in additional logging being output, but very
    /// useful when investigating problems.
    pub fn debug(self, value: bool) -> (r: Self)
        ensures
            r == (GridOptions { debug: Some(value), ..self }),
    {
        let mut s = self;
        s.debug = Some(value);
        s
    }

    /// Set whether pagination is enabled.
    pub fn pagination(self, value: bool) -> (r: Self)
        ensures
            r == (GridOptions { pagination: Some(value), ..self }),
    {
        let mut s = self;
        s.pagination = Some(value);
        s
    }

    /// How many rows to load per page. If
    /// [`GridOptions::pagination_auto_page_size`] is specified, this property
    /// is ignored.
    pub fn pagination_page_size(self, value: u32) -> (r: Self)
        ensures
            r == (GridOptions { pagination_page_size: Some(value), ..self }),
    {
        let mut s = self;
        s.pagination_page_size = Some(value);
        s
    }

    /// Set to `true` so that the number of rows to load per page is
    /// automatically adjusted by the grid so each page shows enough rows to
    /// just fill the area designated for the grid. If `false`,
    /// [#GridOption::pagination_page_size`] is used.
    pub fn pagination_auto_page_size(self, value: bool) -> (r: Self)
        ensures
            r == (GridOptions { pagination_auto_page_size: Some(value), ..self }),
    {
        let mut s = self;
        s.pagination_auto_page_size = Some(value);
        s
    }

    /// Set to `true` to have pages split children of groups when using Row
    /// Grouping or detail rows with Master Detail.
    pub fn paginate_child_rows(self, value: bool) -> (r: Self)
        ensures
            r == (GridOptions { paginate_child_rows: Some(value), ..self }),
    {
        let mut s = self;
        s.paginate_child_rows = Some(value);
        s
    }

    /// If `true`, the default grid controls for navigation are hidden. This is
    /// useful if `pagination=true` and you want to provide your own pagination
    /// controls. Otherwise, when `pagination=true` the grid automatically shows
    /// the necessary controls at the bottom so that the user can navigate
    /// through the different pages.
    pub fn suppress_pagination_panel(self, value: bool) -> (r: Self)
        ensures
            r == (GridOptions { suppress_pagination_panel: Some(value), ..self }),
    {
        let mut s = self;
        s.suppress_pagination_panel = Some(value);
        s
    }

    /// Set to `true` to enable Row Animation.
    pub fn animate_rows(self, value: bool) -> (r: Self)
        ensures
            r == (GridOptions { animate_rows: Some(value), ..self }),
    {
        let mut s = self;
        s.animate_rows = Some(value);
        s
    }

    /// Set to `true` to have cells flash after data changes.
    pub fn enable_cell_change_flash(self, value: bool) -> (r: Self)
        ensures
            r == (GridOptions { enable_cell_change_flash: Some(value), ..self }),
    {
        let mut s = self;
        s.enable_cell_change_flash = Some(value);
        s
    }

    /// To be used in combination with
    /// [`GridOptions::enable_cell_change_flash`], this configuration
    /// will set the delay in milliseconds of how long a cell should remain in
    /// its "flashed" state.
    pub fn cell_flash_delay(self, value: u32) -> (r: Self)
        ensures
            r == (GridOptions { cell_flash_delay: Some(value), ..self }),
    {
        let mut s = self;
        s.cell_flash_delay = Some(value);
        s
    }

    /// To be used in combination with
    /// [`GridOptions::enable_cell_change_flash`], this configuration
    /// will set the delay in milliseconds of how long the "flashed" state
    /// animation takes to fade away after the timer set by
    /// [`GridOptions::cell_flash_delay`] has completed.
    pub fn cell_fade_delay(self, value: u32) -> (r: Self)
        ensures
            r == (GridOptions { cell_fade_delay: Some(value), ..self }),
    {
        let mut s = self;
        s.cell_fade_delay = Some(value);
        s
    }

    /// Set to `true` to have cells flash after data changes even when the
    /// change is due to filtering.
    pub fn allow_show_change_after_filter(self, value: bool) -> (r: Self)
        ensures
            r == (GridOptions { allow_show_change_after_filter: Some(value), ..self }),
    {
        let mut s = self;
        s.allow_show_change_after_filter = Some(value);
        s
    }

    /// Switch between layout options.
    pub fn dom_layout(self, value: DomLayout) -> (r: Self)
        ensures
            r == (GridOptions { dom_layout: Some(value), ..self }),
    {
        let mut s = self;
        s.dom_layout = Some(value);
        s
    }

    /// When `true`, the order of rows and columns in the DOM are consistent
    /// with what is on screen.
    pub fn ensure_dom_order(self, value: bool) -> (r: Self)
        ensures
            r == (GridOptions { ensure_dom_order: Some(value), ..self }),
    {
        let mut s = self;
        s.ensure_dom_order = Some(value);
        s
    }

    /// Set to `true` to operate the grid in RTL (Right to Left) mode.
    pub fn enable_rtl(self, value: bool) -> (r: Self)
        ensures
            r == (GridOptions { enable_rtl: Some(value), ..self }),
    {
        let mut s = self;
        s.enable_rtl = Some(value);
        s
    }

    /// Set to `true` so that the grid doesn't virtualise the columns. For
    /// example, if you have 100 columns, but only 10 visible due to scrolling,
    /// all 100 will always be rendered.
    pub fn suppress_column_virtualisation(self, value: bool) -> (r: Self)
        ensures
            r == (GridOptions { suppress_column_virtualisation: Some(value), ..self }),
    {
        let mut s = self;
        s.suppress_column_virtualisation = Some(value);
        s
    }

    /// Set to `true` so that the grid doesn't virtualise the rows. For example,
    /// if you have 100 rows, but only 10 visible due to scrolling, all 100 will
    /// always be rendered.
    pub fn suppress_row_virtualisation(self, value: bool) -> (r: Self)
        ensures
            r == (GridOptions { suppress_row_virtualisation: Some(value), ..self }),
    {
        let mut s = self;
        s.suppress_row_virtualisation = Some(value);
        s
    }

    /// By default the grid has a limit of rendering a maximum of 500 rows at
    /// once (remember the grid only renders rows you can see, so unless your
    /// display shows more than 500 rows without vertically scrolling this will
    /// never be an issue). This is only relevant if you are manually setting
    /// [`GridOptions::row_buffer`] to a high value (rendering more rows than
    /// can be seen) or if your grid height is able to display more than 500
    /// rows at once.
    pub fn suppress_max_rendered_row_restriction(self, value: bool) -> (r: Self)
        ensures
            r == (GridOptions { suppress_max_rendered_row_restriction: Some(value), ..self }),
    {
        let mut s = self;
        s.suppress_max_rendered_row_restriction = Some(value);
        s
    }

    /// Set to `true` to enable Managed Row Dragging.
    pub fn row_drag_managed(self, value: bool) -> (r: Self)
        ensures
            r == (GridOptions { row_drag_managed: Some(value), ..self }),
    {
        let mut s = self;
        s.row_drag_managed = Some(value);
        s
    }

    /// Set to `true` to enable clicking and dragging anywhere on the row
    /// without the need for a drag handle.
    pub fn row_drag_entire_row(self, value: bool) -> (r: Self)
        ensures
            r == (GridOptions { row_drag_entire_row: Some(value), ..self }),
    {
        let mut s = self;
        s.row_drag_entire_row = Some(value);
        s
    }

    /// Set to `true` to enable dragging multiple rows at the same time.
    pub fn row_drag_multi_row(self, value: bool) -> (r: Self)
        ensures
            r == (GridOptions { row_drag_multi_row: Some(value), ..self }),
    {
        let mut s = self;
        s.row_drag_multi_row = Some(value);
        s
    }

    /// Set to `true` to suppress row dragging.
    pub fn suppress_row_drag(self, value: bool) -> (r: Self)
        ensures
            r == (GridOptions { suppress_row_drag: Some(value), ..self }),
    {
        let mut s = self;
        s.suppress_row_drag = Some(value);
        s
    }

    /// Set to `true` to suppress moving rows while dragging the row drag
    /// waffle. This option highlights the position where the row will be
    /// placed and it will only move the row on mouse up.
    pub fn suppress_move_when_row_dragging(self, value: bool) -> (r: Self)
        ensures
            r == (GridOptions { suppress_move_when_row_dragging: Some(value), ..self }),
    {
        let mut s = self;
        s.suppress_move_when_row_dragging = Some(value);
        s
    }

    /// Sets the row model type.
    pub fn row_model_type(self, value: RowModelType) -> (r: Self)
        ensures
            r == (GridOptions { row_model_type: Some(value), ..self }),
    {
        let mut s = self;
        s.row_model_type = Some(value);
        s
    }

    /// Set the row data.
    pub fn row_data(self, value: Vec<T>) -> (r: Self)
        ensures
            r == (GridOptions { row_data: Some(value), ..self }),
    {
        let mut s = self;
        s.row_data = Some(value);
        s
    }

    pub fn datasource(self, value: DataSource) -> (r: Self)
        ensures
            r == (GridOptions { datasource: Some(value), ..self }),
    {
        let mut s = self;
        s.datasource = Some(value);
        s
    }

    /// How many extra blank rows to display to the user at the end of the
    /// dataset, which sets the vertical scroll and then allows the grid to
    /// request viewing more rows of data.
    pub fn cache_overflow_size(self, value: u32) -> (r: Self)
        ensures
            r == (GridOptions { cache_overflow_size: Some(value), ..self }),
    {
        let mut s = self;
        s.cache_overflow_size = Some(value);
        s
    }

    /// How many requests to hit the server with concurrently. If the max is
    /// reached, requests are queued. Set to `-1` for no maximum restriction on
    /// requests.
    pub fn max_concurrent_datasource_requests(self, value: i32) -> (r: Self)
        ensures
            r == (GridOptions { max_concurrent_datasource_requests: Some(value), ..self }),
    {
        let mut s = self;
        s.max_concurrent_datasource_requests = Some(value);
        s
    }

    /// How many rows for each block in the store, i.e. how many rows returned
    /// from the server at a time.
    pub fn cache_block_size(self, value: u32) -> (r: Self)
        ensures
            r == (GridOptions { cache_block_size: Some(value), ..self }),
    {
        let mut s = self;
        s.cache_block_size = Some(value);
        s
    }

    /// How many blocks to keep in the store. Default is no limit, so every
    /// requested block is kept. Use this if you have memory concerns, and
    /// blocks that were least recently viewed will be purged when the limit is
    /// hit. The grid will additionally make sure it has all the blocks needed
    /// to display what is currently visible, in case this property is set to a
    /// low value.
    pub fn max_blocks_in_cache(self, value: u32) -> (r: Self)
        ensures
            r == (GridOptions { max_blocks_in_cache: Some(value), ..self }),
    {
        let mut s = self;
        s.max_blocks_in_cache = Some(value);
        s
    }

    /// How many extra blank rows to display to the user at the end of the
    /// dataset, which sets the vertical scroll and then allows the grid to
    /// request viewing more rows of data.
    pub fn infinite_initial_row_count(self, value: u32) -> (r: Self)
        ensures
            r == (GridOptions { infinite_initial_row_count: Some(value), ..self }),
    {
        let mut s = self;
        s.infinite_initial_row_count = Some(value);
        s
    }

    /// Set to `true` to always show the horizontal scrollbar.
    pub fn always_show_horizontal_scroll(self, value: bool) -> (r: Self)
        ensures
            r == (GridOptions { always_show_horizontal_scroll: Some(value), ..self }),
    {
        let mut s = self;
        s.always_show_horizontal_scroll = Some(value);
        s
    }

    /// Set to `true` to always show the vertical scrollbar.
    pub fn always_show_vertical_scroll(self, value: bool) -> (r: Self)
        ensures
            r == (GridOptions { always_show_vertical_scroll: Some(value), ..self }),
    {
        let mut s = self;
        s.always_show_vertical_scroll = Some(value);
        s
    }

    /// Set to `true` to debounce the vertical scrollbar. Can provide smoother
    /// scrolling on slow machines.
    pub fn debounce_vertical_scrollbar(self, value: bool) -> (r: Self)
        ensures
            r == (GridOptions { debounce_vertical_scrollbar: Some(value), ..self }),
    {
        let mut s = self;
        s.debounce_vertical_scrollbar = Some(value);
        s
    }

    /// Set to `true` to never show the horizontal scroll. This is useful if the
    /// grid is aligned with another grid and will scroll when the other grid
    /// scrolls. (Should not be used in combination with
    /// [`GridOptions::always_show_horizontal_scroll`].)
    pub fn suppress_horizontal_scroll(self, value: bool) -> (r: Self)
        ensures
            r == (GridOptions { suppress_horizontal_scroll: Some(value), ..self }),
    {
        let mut s = self;
        s.suppress_horizontal_scroll = Some(value);
        s
    }

    /// When `true`, the grid will not scroll to the top when new row data is
    /// provided. Use this if you don't want the default behaviour of scrolling
    /// to the top every time you load new data.
    pub fn suppress_scroll_on_new_data(self, value: bool) -> (r: Self)
        ensures
            r == (GridOptions { suppress_scroll_on_new_data: Some(value), ..self }),
    {
        let mut s = self;
        s.suppress_scroll_on_new_data = Some(value);
        s
    }

    /// When `true`, the grid will not allow mousewheel/touchpad scroll when
    /// popup elements are present.
    pub fn suppress_scroll_when_popups_are_open(self, value: bool) -> (r: Self)
        ensures
            r == (GridOptions { suppress_scroll_when_popups_are_open: Some(value), ..self }),
    {
        let mut s = self;
        s.suppress_scroll_when_popups_are_open = Some(value);
        s
    }

    /// When `true`, the grid will not use animation frames when drawing rows
    /// while scrolling. Use this if the grid is working fast enough that you
    /// don't need animation frames and you don't want the grid to flicker.
    pub fn suppress_animation_frame(self, value: bool) -> (r: Self)
        ensures
            r == (GridOptions { suppress_animation_frame: Some(value), ..self }),
    {
        let mut s = self;
        s.suppress_animation_frame = Some(value);
        s
    }

    /// When `true`, middle clicks will result in click events for cells and
    /// rows. Otherwise the browser will use middle click to scroll the grid.
    /// Note: Not all browsers fire click events with the middle button. Most
    /// will fire only mousedown and mouseup events, which can be used to focus
    /// a cell, but will not work to call the onCellClicked function.
    pub fn suppress_middle_click_scrolls(self, value: bool) -> (r: Self)
        ensures
            r == (GridOptions { suppress_middle_click_scrolls: Some(value), ..self }),
    {
        let mut s = self;
        s.suppress_middle_click_scrolls = Some(value);
        s
    }

    /// When `true`, mouse wheel events will be passed to the browser. Useful if
    /// your grid has no vertical scrolls and you want the mouse to scroll the
    /// browser page.
    pub fn suppress_prevent_default_on_mouse_wheel(self, value: bool) -> (r: Self)
        ensures
            r == (GridOptions { suppress_prevent_default_on_mouse_wheel: Some(value), ..self }),
    {
        let mut s = self;
        s.suppress_prevent_default_on_mouse_wheel = Some(value);
        s
    }

    /// Tell the grid how wide in pixels the scrollbar is, which is used in grid
    /// width calculations. Set only if using non-standard browser-provided
    /// scrollbars, so the grid can use the non-standard size in its
    /// calculations.
    pub fn scrollbar_width(self, value: u32) -> (r: Self)
        ensures
            r == (GridOptions { scrollbar_width: Some(value), ..self }),
    {
        let mut s = self;
        s.scrollbar_width = Some(value);
        s
    }

    /// Type of row selection.
    pub fn row_selection(self, value: RowSelection) -> (r: Self)
        ensures
            r == (GridOptions { row_selection: Some(value), ..self }),
    {
        let mut s = self;
        s.row_selection = Some(value);
        s
    }

    /// Set to `true` to allow multiple rows to be selected using single click.
    pub fn row_multi_select_with_click(self, value: bool) -> (r: Self)
        ensures
            r == (GridOptions { row_multi_select_with_click: Some(value), ..self }),
    {
        let mut s = self;
        s.row_multi_select_with_click = Some(value);
        s
    }

    /// If `true`, rows will not be deselected if you hold down `Ctrl` and click
    /// the row or press `Space`.
    pub fn suppress_row_deselection(self, value: bool) -> (r: Self)
        ensures
            r == (GridOptions { suppress_row_deselection: Some(value), ..self }),
    {
        let mut s = self;
        s.suppress_row_deselection = Some(value);
        s
    }

    /// If `true`, row selection won't happen when rows are clicked. Use when
    /// you only want checkbox selection.
    pub fn suppress_row_click_selection(self, value: bool) -> (r: Self)
        ensures
            r == (GridOptions { suppress_row_click_selection: Some(value), ..self }),
    {
        let mut s = self;
        s.suppress_row_click_selection = Some(value);
        s
    }

    /// If `true`, cells won't be focusable. This means keyboard navigation will
    /// be disabled for grid cells, but remain enabled in other elements of the
    /// grid such as column headers, floating filters, tool panels.
    pub fn suppress_cell_focus(self, value: bool) -> (r: Self)
        ensures
            r == (GridOptions { suppress_cell_focus: Some(value), ..self }),
    {
        let mut s = self;
        s.suppress_cell_focus = Some(value);
        s
    }

    /// Set to `true` to be able to select the text within cells. Note: When
    /// this is set to true, the clipboard service is disabled.
    pub fn enable_cell_text_selection(self, value: bool) -> (r: Self)
        ensures
            r == (GridOptions { enable_cell_text_selection: Some(value), ..self }),
    {
        let mut s = self;
        s.enable_cell_text_selection = Some(value);
        s
    }

    /// Vector defining the order in which sorting occurs (if sorting is
    /// enabled).
    pub fn sorting_order(self, value: Vec<SortMethod>) -> (r: Self)
        ensures
            r == (GridOptions { sorting_order: Some(value), ..self }),
    {
        let mut s = self;
        s.sorting_order = Some(value);
        s
    }

    /// Set to `true` to specify that the sort should take accented characters
    /// into account. If this feature is turned on the sort will be slower.
    pub fn accented_sort(self, value: bool) -> (r: Self)
        ensures
            r == (GridOptions { accented_sort: Some(value), ..self }),
    {
        let mut s = self;
        s.accented_sort = Some(value);
        s
    }

    /// Set to `true` to show the 'no sort' icon.
    pub fn unsort_icon(self, value: bool) -> (r: Self)
        ensures
            r == (GridOptions { unsort_icon: Some(value), ..self }),
    {
        let mut s = self;
        s.unsort_icon = Some(value);
        s
    }

    /// Set to `true` to suppress multi-sort when the user shift-clicks a column
    /// header.
    pub fn suppress_multi_sort(self, value: bool) -> (r: Self)
        ensures
            r == (GridOptions { suppress_multi_sort: Some(value), ..self }),
    {
        let mut s = self;
        s.suppress_multi_sort = Some(value);
        s
    }

    /// Set to `true` to always multi-sort when the user clicks a column header,
    /// regardless of key presses.
    pub fn always_multi_sort(self, value: bool) -> (r: Self)
        ensures
            r == (GridOptions { always_multi_sort: Some(value), ..self }),
    {
        let mut s = self;
        s.always_multi_sort = Some(value);
        s
    }

    /// Set to 'Ctrl' to have multi sorting work using the `Ctrl` (or `Command`
    /// for Mac) key.
    pub fn multi_sort_key(self, value: MultiSortKey) -> (r: Self)
        ensures
            r == (GridOptions { multi_sort_key: Some(value), ..self }),
    {
        let mut s = self;
        s.multi_sort_key = Some(value);
        s
    }

    /// Set to `true` to suppress sorting of un-sorted data to keep the order of the
    /// row data.
    pub fn suppress_maintain_unsorted_order(self, value: bool) -> (r: Self)
        ensures
            r == (GridOptions { suppress_maintain_unsorted_order: Some(value), ..self }),
    {
        let mut s = self;
        s.suppress_maintain_unsorted_order = Some(value);
        s
    }

    /// When enabled, sorts only the rows added/updated by a transaction.
    pub fn delta_sort(self, value: bool) -> (r: Self)
        ensures
            r == (GridOptions { delta_sort: Some(value), ..self }),
    {
        let mut s = self;
        s.delta_sort = Some(value);
        s
    }

    /// Default row height in pixels.
    pub fn row_height(self, value: u32) -> (r: Self)
        ensures
            r == (GridOptions { row_height: Some(value), ..self }),
    {
        let mut s = self;
        s.row_height = Some(value);
        s
    }

    /// CSS class(es) for all rows. Provide either a string (class name) or
    /// vector of strings (vector of class names).
    pub fn row_class(self, value: &str) -> (r: Self)
        ensures
            holds_one(r.row_class, value@),
            r == (GridOptions { row_class: r.row_class, ..self }),
    {
        let mut s = self;
        s.row_class = Some(OneOrMany::One(value.to_owned()));
        s
    }

    /// CSS class(es) for all rows. Provide either a string (class name) or
    /// vector of strings (vector of class names).
    pub fn row_class_array(self, value: Vec<String>) -> (r: Self)
        ensures
            r == (GridOptions { row_class: Some(OneOrMany::Many(value)), ..self }),
    {
        let mut s = self;
        s.row_class = Some(OneOrMany::Many(value));
        s
    }

    /// Set to `true` to not highlight rows by adding the `ag-row-hover` CSS
    /// class.
    pub fn suppress_row_hover_highlight(self, value: bool) -> (r: Self)
        ensures
            r == (GridOptions { suppress_row_hover_highlight: Some(value), ..self }),
    {
        let mut s = self;
        s.suppress_row_hover_highlight = Some(value);
        s
    }

    /// Uses CSS `top` instead of CSS `transform` for positioning rows. Useful
    /// if the transform function is causing issues such as used in `row
    /// spanning`.
    pub fn suppress_row_transform(self, value: bool) -> (r: Self)
        ensures
            r == (GridOptions { suppress_row_transform: Some(value), ..self }),
    {
        let mut s = self;
        s.suppress_row_transform = Some(value);
        s
    }

    /// Set to `true` to highlight columns by adding the `ag-column-hover` CSS
    /// class.
    pub fn column_hover_highlight(self, value: bool) -> (r: Self)
        ensures
            r == (GridOptions { column_hover_highlight: Some(value), ..self }),
    {
        let mut s = self;
        s.column_hover_highlight = Some(value);
        s
    }

    /// Set to `true` to use the browser's default tooltip instead of using the
    /// grid's Tooltip Component.
    pub fn enable_browser_tooltips(self, value: bool) -> (r: Self)
        ensures
            r == (GridOptions { enable_browser_tooltips: Some(value), ..self }),
    {
        let mut s = self;
        s.enable_browser_tooltips = Some(value);
        s
    }

    /// The delay in milliseconds that it takes for tooltips to show up once an
    /// element is hovered over. Note: This property does not work if
    /// [`GridOptions::enable_browser_tooltips`] is `true`.
    pub fn tooltip_show_delay(self, value: u32) -> (r: Self)
        ensures
            r == (GridOptions { tooltip_show_delay: Some(value), ..self }),
    {
        let mut s = self;
        s.tooltip_show_delay = Some(value);
        s
    }

    /// The delay in milliseconds that it takes for tooltips to hide once they
    /// have been displayed. Note: This property does not work if
    /// [`GridOptions::enable_browser_tooltips`] is `true`.
    pub fn tooltip_hide_delay(self, value: u32) -> (r: Self)
        ensures
            r == (GridOptions { tooltip_hide_delay: Some(value), ..self }),
    {
        let mut s = self;
        s.tooltip_hide_delay = Some(value);
        s
    }

    /// Set to `true` to have tooltips follow the cursor once they are
    /// displayed.
    pub fn tooltip_mouse_track(self, value: bool) -> (r: Self)
        ensures
            r == (GridOptions { tooltip_mouse_track: Some(value), ..self }),
    {
        let mut s = self;
        s.tooltip_mouse_track = Some(value);
        s
    }

}

/// Options with nothing set, as the constructor makes them, serialize to an
/// empty object.
pub proof fn law_new_options_serialize_empty<T: ToJsValue>(c: GridOptions<T>)
    requires
        c.is_unset(),
    ensures
        c.js_data() == JsData::Object(Seq::empty()),
{
    let f = c.field_slots();
    assert forall|i: int| 0 <= i < f.len() implies #[trigger] f[i].1 == SlotData::Optional(None) by {}
    law_all_absent(f, true);
}

impl<T: ToJsValue> ToJsValue for GridOptions<T> {
    open spec fn js_data(&self) -> JsData {
        JsData::Object(struct_entries(self.field_slots(), true))
    }

    #[verifier::rlimit(100)]
    fn to_js_value(&self) -> (r: JsValue) {
        let mut fields: Vec<FieldEntry> = Vec::new();
        fields.push(FieldEntry { key: "columnDefs".to_owned(), slot: optional(&self.column_defs) });
        fields.push(FieldEntry { key: "defaultColDef".to_owned(), slot: optional(&self.default_col_def) });
        fields.push(FieldEntry { key: "maintainColumnOrder".to_owned(), slot: optional(&self.maintain_column_order) });
        fields.push(FieldEntry { key: "suppressFieldDotNotation".to_owned(), slot: optional(&self.suppress_field_dot_notation) });
        fields.push(FieldEntry { key: "headerHeight".to_owned(), slot: optional(&self.header_height) });
        fields.push(FieldEntry { key: "groupHeaderHeight".to_owned(), slot: optional(&self.group_header_height) });
        fields.push(FieldEntry { key: "floatingFiltersHeight".to_owned(), slot: optional(&self.floating_filters_height) });
        fields.push(FieldEntry { key: "suppressMovableColumns".to_owned(), slot: optional(&self.suppress_movable_columns) });
        fields.push(FieldEntry { key: "suppressColumnMoveAnimation".to_owned(), slot: optional(&self.suppress_column_move_animation) });
        fields.push(FieldEntry { key: "suppressDragLeaveHidesColumns".to_owned(), slot: optional(&self.suppress_drag_leave_hides_columns) });
        fields.push(FieldEntry { key: "suppressRowGroupHidesColumns".to_owned(), slot: optional(&self.suppress_row_group_hides_columns) });
        fields.push(FieldEntry { key: "colResizeDefault".to_owned(), slot: optional(&self.col_resize_default) });
        fields.push(FieldEntry { key: "suppressAutoSize".to_owned(), slot: optional(&self.suppress_auto_size) });
        fields.push(FieldEntry { key: "autoSizePadding".to_owned(), slot: optional(&self.auto_size_padding) });
        fields.push(FieldEntry { key: "skipHeaderOnAutoSize".to_owned(), slot: optional(&self.skip_header_on_auto_size) });
        fields.push(FieldEntry { key: "editType".to_owned(), slot: optional(&self.edit_type) });
        fields.push(FieldEntry { key: "singleClickEdit".to_owned(), slot: optional(&self.single_click_edit) });
        fields.push(FieldEntry { key: "suppressClickEdit".to_owned(), slot: optional(&self.suppress_click_edit) });
        fields.push(FieldEntry { key: "stopEditingWhenCellsLoseFocus".to_owned(), slot: optional(&self.stop_editing_when_cells_lose_focus) });
        fields.push(FieldEntry { key: "enterMovesDown".to_owned(), slot: optional(&self.enter_moves_down) });
        fields.push(FieldEntry { key: "enterMovesDownAfterEdit".to_owned(), slot: optional(&self.enter_moves_down_after_edit) });
        fields.push(FieldEntry { key: "undoRedoCellEditing".to_owned(), slot: optional(&self.undo_redo_cell_editing) });
        fields.push(FieldEntry { key: "undoRedoCellEditingLimit".to_owned(), slot: optional(&self.undo_redo_cell_editing_limit) });
        fields.push(FieldEntry { key: "readOnlyEdit".to_owned(), slot: optional(&self.read_only_edit) });
        fields.push(FieldEntry { key: "suppressCsvExport".to_owned(), slot: optional(&self.suppress_csv_export) });
        fields.push(FieldEntry { key: "suppressExcelExport".to_owned(), slot: optional(&self.suppress_excel_export) });
        fields.push(FieldEntry { key: "context".to_owned(), slot: optional(&self.context) });
        fields.push(FieldEntry { key: "tabIndex".to_owned(), slot: optional(&self.tab_index) });
        fields.push(FieldEntry { key: "rowBuffer".to_owned(), slot: optional(&self.row_buffer) });
        fields.push(FieldEntry { key: "debug".to_owned(), slot: optional(&self.debug) });
        fields.push(FieldEntry { key: "pagination".to_owned(), slot: optional(&self.pagination) });
        fields.push(FieldEntry { key: "paginationPageSize".to_owned(), slot: optional(&self.pagination_page_size) });
        fields.push(FieldEntry { key: "paginationAutoPageSize".to_owned(), slot: optional(&self.pagination_auto_page_size) });
        fields.push(FieldEntry { key: "paginateChildRows".to_owned(), slot: optional(&self.paginate_child_rows) });
        fields.push(FieldEntry { key: "suppressPaginationPanel".to_owned(), slot: optional(&self.suppress_pagination_panel) });
        fields.push(FieldEntry { key: "animateRows".to_owned(), slot: optional(&self.animate_rows) });
        fields.push(FieldEntry { key: "enableCellChangeFlash".to_owned(), slot: optional(&self.enable_cell_change_flash) });
        fields.push(FieldEntry { key: "cellFlashDelay".to_owned(), slot: optional(&self.cell_flash_delay) });
        fields.push(FieldEntry { key: "cellFadeDelay".to_owned(), slot: optional(&self.cell_fade_delay) });
        fields.push(FieldEntry { key: "allowShowChangeAfterFilter".to_owned(), slot: optional(&self.allow_show_change_after_filter) });
        fields.push(FieldEntry { key: "domLayout".to_owned(), slot: optional(&self.dom_layout) });
        fields.push(FieldEntry { key: "ensureDomOrder".to_owned(), slot: optional(&self.ensure_dom_order) });
        fields.push(FieldEntry { key: "enableRtl".to_owned(), slot: optional(&self.enable_rtl) });
        fields.push(FieldEntry { key: "suppressColumnVirtualisation".to_owned(), slot: optional(&self.suppress_column_virtualisation) });
        fields.push(FieldEntry { key: "suppressRowVirtualisation".to_owned(), slot: optional(&self.suppress_row_virtualisation) });
        fields.push(FieldEntry { key: "suppressMaxRenderedRowRestriction".to_owned(), slot: optional(&self.suppress_max_rendered_row_restriction) });
        fields.push(FieldEntry { key: "rowDragManaged".to_owned(), slot: optional(&self.row_drag_managed) });
        fields.push(FieldEntry { key: "rowDragEntireRow".to_owned(), slot: optional(&self.row_drag_entire_row) });
        fields.push(FieldEntry { key: "rowDragMultiRow".to_owned(), slot: optional(&self.row_drag_multi_row) });
        fields.push(FieldEntry { key: "suppressRowDrag".to_owned(), slot: optional(&self.suppress_row_drag) });
        fields.push(FieldEntry { key: "suppressMoveWhenRowDragging".to_owned(), slot: optional(&self.suppress_move_when_row_dragging) });
        fields.push(FieldEntry { key: "rowModelType".to_owned(), slot: optional(&self.row_model_type) });
        fields.push(FieldEntry { key: "rowData".to_owned(), slot: optional(&self.row_data) });
        fields.push(FieldEntry { key: "datasource".to_owned(), slot: optional(&self.datasource) });
        fields.push(FieldEntry { key: "cacheOverflowSize".to_owned(), slot: optional(&self.cache_overflow_size) });
        fields.push(FieldEntry { key: "maxConcurrentDatasourceRequests".to_owned(), slot: optional(&self.max_concurrent_datasource_requests) });
        fields.push(FieldEntry { key: "cacheBlockSize".to_owned(), slot: optional(&self.cache_block_size) });
        fields.push(FieldEntry { key: "maxBlocksInCache".to_owned(), slot: optional(&self.max_blocks_in_cache) });
        fields.push(FieldEntry { key: "infiniteInitialRowCount".to_owned(), slot: optional(&self.infinite_initial_row_count) });
        fields.push(FieldEntry { key: "alwaysShowHorizontalScroll".to_owned(), slot: optional(&self.always_show_horizontal_scroll) });
        fields.push(FieldEntry { key: "alwaysShowVerticalScroll".to_owned(), slot: optional(&self.always_show_vertical_scroll) });
        fields.push(FieldEntry { key: "debounceVerticalScrollbar".to_owned(), slot: optional(&self.debounce_vertical_scrollbar) });
        fields.push(FieldEntry { key: "suppressHorizontalScroll".to_owned(), slot: optional(&self.suppress_horizontal_scroll) });
        fields.push(FieldEntry { key: "suppressScrollOnNewData".to_owned(), slot: optional(&self.suppress_scroll_on_new_data) });
        fields.push(FieldEntry { key: "suppressScrollWhenPopupsAreOpen".to_owned(), slot: optional(&self.suppress_scroll_when_popups_are_open) });
        fields.push(FieldEntry { key: "suppressAnimationFrame".to_owned(), slot: optional(&self.suppress_animation_frame) });
        fields.push(FieldEntry { key: "suppressMiddleClickScrolls".to_owned(), slot: optional(&self.suppress_middle_click_scrolls) });
        fields.push(FieldEntry { key: "suppressPreventDefaultOnMouseWheel".to_owned(), slot: optional(&self.suppress_prevent_default_on_mouse_wheel) });
        fields.push(FieldEntry { key: "scrollbarWidth".to_owned(), slot: optional(&self.scrollbar_width) });
        fields.push(FieldEntry { key: "rowSelection".to_owned(), slot: optional(&self.row_selection) });
        fields.push(FieldEntry { key: "rowMultiSelectWithClick".to_owned(), slot: optional(&self.row_multi_select_with_click) });
        fields.push(FieldEntry { key: "suppressRowDeselection".to_owned(), slot: optional(&self.suppress_row_deselection) });
        fields.push(FieldEntry { key: "suppressRowClickSelection".to_owned(), slot: optional(&self.suppress_row_click_selection) });
        fields.push(FieldEntry { key: "suppressCellFocus".to_owned(), slot: optional(&self.suppress_cell_focus) });
        fields.push(FieldEntry { key: "enableCellTextSelection".to_owned(), slot: optional(&self.enable_cell_text_selection) });
        fields.push(FieldEntry { key: "sortingOrder".to_owned(), slot: optional(&self.sorting_order) });
        fields.push(FieldEntry { key: "accentedSort".to_owned(), slot: optional(&self.accented_sort) });
        fields.push(FieldEntry { key: "unSortIcon".to_owned(), slot: optional(&self.unsort_icon) });
        fields.push(FieldEntry { key: "suppressMultiSort".to_owned(), slot: optional(&self.suppress_multi_sort) });
        fields.push(FieldEntry { key: "alwaysMultiSort".to_owned(), slot: optional(&self.always_multi_sort) });
        fields.push(FieldEntry { key: "multiSortKey".to_owned(), slot: optional(&self.multi_sort_key) });
        fields.push(FieldEntry { key: "suppressMaintainUnsortedOrder".to_owned(), slot: optional(&self.suppress_maintain_unsorted_order) });
        fields.push(FieldEntry { key: "deltaSort".to_owned(), slot: optional(&self.delta_sort) });
        fields.push(FieldEntry { key: "rowHeight".to_owned(), slot: optional(&self.row_height) });
        fields.push(FieldEntry { key: "rowClass".to_owned(), slot: optional(&self.row_class) });
        fields.push(FieldEntry { key: "suppressRowHoverHighlight".to_owned(), slot: optional(&self.suppress_row_hover_highlight) });
        fields.push(FieldEntry { key: "suppressRowTransform".to_owned(), slot: optional(&self.suppress_row_transform) });
        fields.push(FieldEntry { key: "columnHoverHighlight".to_owned(), slot: optional(&self.column_hover_highlight) });
        fields.push(FieldEntry { key: "enableBrowserTooltips".to_owned(), slot: optional(&self.enable_browser_tooltips) });
        fields.push(FieldEntry { key: "tooltipShowDelay".to_owned(), slot: optional(&self.tooltip_show_delay) });
        fields.push(FieldEntry { key: "tooltipHideDelay".to_owned(), slot: optional(&self.tooltip_hide_delay) });
        fields.push(FieldEntry { key: "tooltipMouseTrack".to_owned(), slot: optional(&self.tooltip_mouse_track) });
        assert(fields_view(fields@) =~= self.field_slots());
        serialize_struct(fields, true)
    }
}

/// Allowed values for [`GridOptions::multi_sort_key`].
#[derive(Clone, Copy, PartialEq, Eq, Structural, Debug)]
pub enum MultiSortKey {
    Ctrl,
}

impl ToJsValue for MultiSortKey {
    open spec fn js_data(&self) -> JsData {
        match self {
            MultiSortKey::Ctrl => JsData::Str("ctrl"@),
        }
    }

    fn to_js_value(&self) -> (r: JsValue) {
        match self {
            MultiSortKey::Ctrl => JsValue::Str("ctrl".to_owned()),
        }
    }
}

/// Allowed values for [`GridOptions::dom_layout`].
#[derive(Clone, Copy, PartialEq, Eq, Structural, Debug)]
pub enum DomLayout {
    Normal,
    Print,
    AutoHeight,
}

impl ToJsValue for DomLayout {
    open spec fn js_data(&self) -> JsData {
        match self {
            DomLayout::Normal => JsData::Str("normal"@),
            DomLayout::Print => JsData::Str("print"@),
            DomLayout::AutoHeight => JsData::Str("autoHeight"@),
        }
    }

    fn to_js_value(&self) -> (r: JsValue) {
        match self {
            DomLayout::Normal => JsValue::Str("normal".to_owned()),
            DomLayout::Print => JsValue::Str("print".to_owned()),
            DomLayout::AutoHeight => JsValue::Str("autoHeight".to_owned()),
        }
    }
}

/// Allowed values for [`GridOptions::edit_type`].
#[derive(Clone, Copy, PartialEq, Eq, Structural, Debug)]
pub enum EditType {
    FullRow,
}

impl ToJsValue for EditType {
    open spec fn js_data(&self) -> JsData {
        match self {
            EditType::FullRow => JsData::Str("fullRow"@),
        }
    }

    fn to_js_value(&self) -> (r: JsValue) {
        match self {
            EditType::FullRow => JsValue::Str("fullRow".to_owned()),
        }
    }
}

/// Allowed values for [`GridOptions::col_resize_default`].
#[derive(Clone, Copy, PartialEq, Eq, Structural, Debug)]
pub enum ResizeMethod {
    Shift,
}

impl ToJsValue for ResizeMethod {
    open spec fn js_data(&self) -> JsData {
        match self {
            ResizeMethod::Shift => JsData::Str("shift"@),
        }
    }

    fn to_js_value(&self) -> (r: JsValue) {
        match self {
            ResizeMethod::Shift => JsValue::Str("shift".to_owned()),
        }
    }
}

/// Allowed values for [`GridOptions::row_selection`].
#[derive(Clone, Copy, PartialEq, Eq, Structural, Debug)]
pub enum RowSelection {
    Single,
    Multiple,
}

impl ToJsValue for RowSelection {
    open spec fn js_data(&self) -> JsData {
        match self {
            RowSelection::Single => JsData::Str("single"@),
            RowSelection::Multiple => JsData::Str("multiple"@),
        }
    }

    fn to_js_value(&self) -> (r: JsValue) {
        match self {
            RowSelection::Single => JsValue::Str("single".to_owned()),
            RowSelection::Multiple => JsValue::Str("multiple".to_owned()),
        }
    }
}

/// Allowed values for [`GridOptions::row_model_type`].
#[derive(Clone, Copy, PartialEq, Eq, Structural, Debug)]
pub enum RowModelType {
    Infinite,
    Viewport,
    ClientSide,
    ServerSide,
}

impl ToJsValue for RowModelType {
    open spec fn js_data(&self) -> JsData {
        match self {
            RowModelType::Infinite => JsData::Str("infinite"@),
            RowModelType::Viewport => JsData::Str("viewport"@),
            RowModelType::ClientSide => JsData::Str("clientSide"@),
            RowModelType::ServerSide => JsData::Str("serverSide"@),
        }
    }

    fn to_js_value(&self) -> (r: JsValue) {
        match self {
            RowModelType::Infinite => JsValue::Str("infinite".to_owned()),
            RowModelType::Viewport => JsValue::Str("viewport".to_owned()),
            RowModelType::ClientSide => JsValue::Str("clientSide".to_owned()),
            RowModelType::ServerSide => JsValue::Str("serverSide".to_owned()),
        }
    }
}

/// What the grid calls to fetch rows: an object with one function,
/// `getRows`.
pub struct DataSource {
    pub get_rows: Callback,
}

impl ToJsValue for DataSource {
    open spec fn js_data(&self) -> JsData {
        JsData::Object(
            struct_entries(seq![("getRows"@, SlotData::Required(self.get_rows.js_data()))], false),
        )
    }

    fn to_js_value(&self) -> (r: JsValue) {
        let mut fields: Vec<FieldEntry> = Vec::new();
        fields.push(FieldEntry { key: "getRows".to_owned(), slot: required(&self.get_rows) });
        assert(fields_view(fields@) =~= seq![
            ("getRows"@, SlotData::Required(self.get_rows.js_data())),
        ]);
        serialize_struct(fields, false)
    }
}

} // verus!
