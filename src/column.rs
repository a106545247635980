//! Column definitions.
use vstd::prelude::*;
use crate::convert::ToJsValue;
use crate::serialize::{
    law_all_absent,
    fields_view, optional, optional_data, serialize_struct, struct_entries, FieldEntry, SlotData,
};
pub use crate::sort::SortMethod;
use crate::types::{holds_one, holds_str, Callback, OneOrMany};
use crate::value::{JsData, JsValue};

verus! {

/// A customisable definition of a column, built with fluent setters. Absent
/// options are left out when it is serialized.
pub struct ColumnDef {
    pub field: Option<String>,
    /// The unique ID to give the column. This is optional. If missing, the ID
    /// will default to the field. If both field and colId are missing, a
    /// unique ID will be generated. This ID is used to identify the column in
    /// the API for sorting, filtering etc.
    pub col_id: Option<String>,
    /// A comma separated string or if using the [`ColumnDef::type_array`]
    /// method, a vector of strings containing ColumnType keys which can be
    /// used as a template for a column. This helps to reduce duplication of
    /// properties when you have a lot of common column properties.
    pub type_: Option<OneOrMany<String>>,
    /// A function or expression that gets the value to be displayed from your
    /// data.
    pub value_getter: Option<String>,
    /// A function or an expression to format a value. Not used for CSV export
    /// or copy to clipboard; only for UI cell rendering.
    pub value_formatter: Option<String>,
    /// Provide a reference data map to be used to map column values to their
    /// respective value from the map.
    /// Set to `true` to display a disabled checkbox when row is not selectable
    /// and checkboxes are enabled.
    pub show_disabled_checkboxes: Option<bool>,
    /// Set to `true` for this column to be hidden.
    pub hidden: Option<bool>,
    /// Same as [`ColumnDef::hidden`], except only applied when creating a new
    /// column. Not applied when updating column definitions.
    pub initial_hide: Option<bool>,
    /// Set to `true` to block making column visible/hidden via the UI (API will
    /// still work).
    pub lock_visible: Option<bool>,
    /// Lock a column to position to `Left` or `Right` to always have this
    /// column displayed in that position. `True` is treated as `Left`.
    pub lock_position: Option<LockPosition>,
    /// Set to `true` if you do not want this column to be movable via dragging.
    pub suppress_movable: Option<bool>,
    /// Set to `true` if this column is editable.
    pub editable: Option<bool>,
    /// Set to `true` to have the cell editor appear in a popup.
    pub cell_editor_popup: Option<bool>,
    /// Set the position for the popup cell editor. Possible values are `Over`,
    /// whereby the popup will be positioned over the cell, or `Under`, whereby
    /// the popup will be positioned below the cell leaving the cell value
    /// visible.
    pub cell_editor_popup_position: Option<PopupPosition>,
    /// Set to `true` to have cells under this column enter edit mode after
    /// single click.
    pub single_click_edit: Option<bool>,
    /// Set whether the column is filterable, or use one of the provided
    /// filters.
    pub filter: Option<Filter>,
    /// Whether to display a floating filter for this column.
    pub floating_filter: Option<bool>,
    /// The name to render in the column header. If not specified and field is
    /// specified, the field name will be used as the header name.
    pub header_name: Option<String>,
    /// Get the value for display in the header.
    pub header_value_getter: Option<Callback>,
    /// Tooltip for the column header.
    pub header_tooltip: Option<String>,
    /// CSS class to use for the header cell. Can be a string or, if using the
    /// `header_class_array` method, a vector of strings.
    pub header_class: Option<OneOrMany<String>>,
    /// Set to `true` to wrap long header names onto the next line.
    pub wrap_header_text: Option<bool>,
    /// Set to `true` to enable the header row to automatically adjust its
    /// height to accommodate the size of the header cell.
    pub auto_header_height: Option<bool>,
    /// Select which menu tabs are present, and in what order they are shown.
    pub menu_tabs: Option<Vec<MenuTab>>,
    /// Set to `true` to disable showing the menu for this column header.
    pub suppress_menu: Option<bool>,
    /// If `true`, a 'select all' checkbox will be put into the header.
    pub header_checkbox_selection: Option<bool>,
    /// If `true`, the header checkbox selection will only select filtered
    /// items.
    pub header_checkbox_selection_filtered_only: Option<bool>,
    /// Pin a column to one side: right or left. A value of `True` is converted
    /// to `Left`.
    pub pinned: Option<PinnedPosition>,
    /// Same as [`ColumnDef::pinned`], except only applied when creating a new
    /// column. Not applied when updating column definitions.
    pub initial_pinned: Option<PinnedPosition>,
    /// Set to `true` to block the user pinning the column, the column can only
    /// be pinned via definitions or API.
    pub lock_pinned: Option<bool>,
    /// Set to `true` to have the grid calculate the height of a row based on
    /// contents of this column.
    pub auto_height: Option<bool>,
    /// Set to `true` to have the text wrap inside the cell - typically used
    /// with [`ColumnDef::auto_height`].
    pub wrap_text: Option<bool>,
    /// Set to `true` to flash a cell when it's refreshed.
    pub enable_cell_change_flash: Option<bool>,
    /// Set to `true` to prevent this column from flashing on changes. Only
    /// applicable if cell flashing is turned on for the grid.
    pub suppress_cell_flash: Option<bool>,
    /// Set to `true` to allow row dragging.
    pub row_drag: Option<bool>,
    /// Set to `true` to allow dragging for native drag and drop.
    pub dnd_source: Option<bool>,
    /// Set wether the column is sortable.
    pub sortable: Option<bool>,
    /// Set the default sorting method.
    pub sort: Option<SortMethod>,
    /// The same as [`ColumnDef::sort`], except only applied when creating a new
    /// column. Not applied when updating column definitions.
    pub initial_sort: Option<SortMethod>,
    /// If sorting more than one column by default, specifies order in which the
    /// sorting should be applied.
    pub sort_index: Option<Option<u32>>,
    /// Vector defining the order in which sorting occurs (if sorting is
    /// enabled). Expects a vector of any permutation of the [`SortMethod`]
    /// variants.
    pub sorting_order: Option<Vec<SortMethod>>,
    /// Set to `true` if you want the unsorted icon to be shown when no sort is
    /// applied to this column.
    pub unsort_icon: Option<bool>,
    /// Set the span of the column.
    pub col_span: Option<u32>,
    /// Set the span of the row.
    pub row_span: Option<u32>,
    /// The field of the tooltip to apply to the cell.
    pub tooltip_field: Option<String>,
    /// Initial width in pixels for the cell.
    pub width: Option<u32>,
    /// The same as [`ColumnDef::width`], except only applied when creating a
    /// new column. Not applied when updating column definitions.
    pub initial_width: Option<u32>,
    /// Minimum width in pixels for the cell.
    pub min_width: Option<u32>,
    /// Maxmum width in pixels for the cell.
    pub max_width: Option<u32>,
    /// Used instead of width when the goal is to fill the remaining empty space
    /// of the grid.
    pub flex: Option<u32>,
    /// The same as [`ColumnDef::flex`], except only applied when creating a new
    /// column. Not applied when updating column definitions.
    pub initial_flex: Option<u32>,
    /// Set to `true` to allow this column to be resized.
    pub resizable: Option<bool>,
    /// Set to `true` if you want this column's width to be fixed during 'size
    /// to fit' operations.
    pub suppress_size_to_fit: Option<bool>,
    /// Set to `true` if you do not want this column to be auto-resizable by
    /// double clicking it's edge.
    pub suppress_auto_size: Option<bool>,
}

impl ColumnDef {
    /// Every option is absent.
    pub open spec fn is_unset(&self) -> bool {
        &&& self.field is None
        &&& self.col_id is None
        &&& self.type_ is None
        &&& self.value_getter is None
        &&& self.value_formatter is None
        &&& self.show_disabled_checkboxes is None
        &&& self.hidden is None
        &&& self.initial_hide is None
        &&& self.lock_visible is None
        &&& self.lock_position is None
        &&& self.suppress_movable is None
        &&& self.editable is None
        &&& self.cell_editor_popup is None
        &&& self.cell_editor_popup_position is None
        &&& self.single_click_edit is None
        &&& self.filter is None
        &&& self.floating_filter is None
        &&& self.header_name is None
        &&& self.header_value_getter is None
        &&& self.header_tooltip is None
        &&& self.header_class is None
        &&& self.wrap_header_text is None
        &&& self.auto_header_height is None
        &&& self.menu_tabs is None
        &&& self.suppress_menu is None
        &&& self.header_checkbox_selection is None
        &&& self.header_checkbox_selection_filtered_only is None
        &&& self.pinned is None
        &&& self.initial_pinned is None
        &&& self.lock_pinned is None
        &&& self.auto_height is None
        &&& self.wrap_text is None
        &&& self.enable_cell_change_flash is None
        &&& self.suppress_cell_flash is None
        &&& self.row_drag is None
        &&& self.dnd_source is None
        &&& self.sortable is None
        &&& self.sort is None
        &&& self.initial_sort is None
        &&& self.sort_index is None
        &&& self.sorting_order is None
        &&& self.unsort_icon is None
        &&& self.col_span is None
        &&& self.row_span is None
        &&& self.tooltip_field is None
        &&& self.width is None
        &&& self.initial_width is None
        &&& self.min_width is None
        &&& self.max_width is None
        &&& self.flex is None
        &&& self.initial_flex is None
        &&& self.resizable is None
        &&& self.suppress_size_to_fit is None
        &&& self.suppress_auto_size is None
    }

    /// The options under their serialized keys, in declaration order.
    pub open spec fn field_slots(&self) -> Seq<(Seq<char>, SlotData)> {
        seq![
            ("field"@, optional_data(self.field)),
            ("colId"@, optional_data(self.col_id)),
            ("type"@, optional_data(self.type_)),
            ("valueGetter"@, optional_data(self.value_getter)),
            ("valueFormatter"@, optional_data(self.value_formatter)),
            ("showDisabledCheckboxes"@, optional_data(self.show_disabled_checkboxes)),
            ("hide"@, optional_data(self.hidden)),
            ("initialHide"@, optional_data(self.initial_hide)),
            ("lockVisible"@, optional_data(self.lock_visible)),
            ("lockPosition"@, optional_data(self.lock_position)),
            ("suppressMovable"@, optional_data(self.suppress_movable)),
            ("editable"@, optional_data(self.editable)),
            ("cellEditorPopup"@, optional_data(self.cell_editor_popup)),
            ("cellEditorPopupPosition"@, optional_data(self.cell_editor_popup_position)),
            ("singleClickEdit"@, optional_data(self.single_click_edit)),
            ("filter"@, optional_data(self.filter)),
            ("floatingFilter"@, optional_data(self.floating_filter)),
            ("headerName"@, optional_data(self.header_name)),
            ("headerValueGetter"@, optional_data(self.header_value_getter)),
            ("headerTooltip"@, optional_data(self.header_tooltip)),
            ("headerClass"@, optional_data(self.header_class)),
            ("wrapHeaderText"@, optional_data(self.wrap_header_text)),
            ("autoHeaderHeight"@, optional_data(self.auto_header_height)),
            ("menuTabs"@, optional_data(self.menu_tabs)),
            ("suppressMenu"@, optional_data(self.suppress_menu)),
            ("headerCheckboxSelection"@, optional_data(self.header_checkbox_selection)),
            ("headerCheckboxSelectionFilteredOnly"@, optional_data(self.header_checkbox_selection_filtered_only)),
            ("pinned"@, optional_data(self.pinned)),
            ("initialPinned"@, optional_data(self.initial_pinned)),
            ("lockPinned"@, optional_data(self.lock_pinned)),
            ("autoHeight"@, optional_data(self.auto_height)),
            ("wrapText"@, optional_data(self.wrap_text)),
            ("enableCellChangeFlash"@, optional_data(self.enable_cell_change_flash)),
            ("suppressCellFlash"@, optional_data(self.suppress_cell_flash)),
            ("rowDrag"@, optional_data(self.row_drag)),
            ("dndSource"@, optional_data(self.dnd_source)),
            ("sortable"@, optional_data(self.sortable)),
            ("sort"@, optional_data(self.sort)),
            ("initialSort"@, optional_data(self.initial_sort)),
            ("sortIndex"@, optional_data(self.sort_index)),
            ("sortingOrder"@, optional_data(self.sorting_order)),
            ("unSortIcon"@, optional_data(self.unsort_icon)),
            ("colSpan"@, optional_data(self.col_span)),
            ("rowSpan"@, optional_data(self.row_span)),
            ("tooltipField"@, optional_data(self.tooltip_field)),
            ("width"@, optional_data(self.width)),
            ("initialWidth"@, optional_data(self.initial_width)),
            ("minWidth"@, optional_data(self.min_width)),
            ("maxWidth"@, optional_data(self.max_width)),
            ("flex"@, optional_data(self.flex)),
            ("initialFlex"@, optional_data(self.initial_flex)),
            ("resizable"@, optional_data(self.resizable)),
            ("suppressSizeToFit"@, optional_data(self.suppress_size_to_fit)),
            ("suppressAutoSize"@, optional_data(self.suppress_auto_size)),
        ]
    }

    /// A column definition with every option absent.
    pub fn new() -> (r: ColumnDef)
        ensures
            r.is_unset(),
    {
        ColumnDef {
            field: None,
            col_id: None,
            type_: None,
            value_getter: None,
            value_formatter: None,
            show_disabled_checkboxes: None,
            hidden: None,
            initial_hide: None,
            lock_visible: None,
            lock_position: None,
            suppress_movable: None,
            editable: None,
            cell_editor_popup: None,
            cell_editor_popup_position: None,
            single_click_edit: None,
            filter: None,
            floating_filter: None,
            header_name: None,
            header_value_getter: None,
            header_tooltip: None,
            header_class: None,
            wrap_header_text: None,
            auto_header_height: None,
            menu_tabs: None,
            suppress_menu: None,
            header_checkbox_selection: None,
            header_checkbox_selection_filtered_only: None,
            pinned: None,
            initial_pinned: None,
            lock_pinned: None,
            auto_height: None,
            wrap_text: None,
            enable_cell_change_flash: None,
            suppress_cell_flash: None,
            row_drag: None,
            dnd_source: None,
            sortable: None,
            sort: None,
            initial_sort: None,
            sort_index: None,
            sorting_order: None,
            unsort_icon: None,
            col_span: None,
            row_span: None,
            tooltip_field: None,
            width: None,
            initial_width: None,
            min_width: None,
            max_width: None,
            flex: None,
            initial_flex: None,
            resizable: None,
            suppress_size_to_fit: None,
            suppress_auto_size: None,
        }
    }

    pub fn field(self, value: &str) -> (r: Self)
        ensures
            holds_str(r.field, value@),
            r == (ColumnDef { field: r.field, ..self }),
    {
        let mut s = self;
        s.field = Some(value.to_owned());
        s
    }

    /// The unique ID to give the column. This is optional. If missing, the ID
    /// will default to the field. If both field and colId are missing, a
    /// unique ID will be generated. This ID is used to identify the column in
    /// the API for sorting, filtering etc.
    pub fn col_id(self, value: &str) -> (r: Self)
        ensures
            holds_str(r.col_id, value@),
            r == (ColumnDef { col_id: r.col_id, ..self }),
    {
        let mut s = self;
        s.col_id = Some(value.to_owned());
        s
    }

    /// A comma separated string or if using the [`ColumnDef::type_array`]
    /// method, a vector of strings containing ColumnType keys which can be
    /// used as a template for a column. This helps to reduce duplication of
    /// properties when you have a lot of common column properties.
    pub fn type_(self, value: &str) -> (r: Self)
        ensures
            holds_one(r.type_, value@),
            r == (ColumnDef { type_: r.type_, ..self }),
    {
        let mut s = self;
        s.type_ = Some(OneOrMany::One(value.to_owned()));
        s
    }

    /// A comma separated string or if using the [`ColumnDef::type_array`]
    /// method, a vector of strings containing ColumnType keys which can be
    /// used as a template for a column. This helps to reduce duplication of
    /// properties when you have a lot of common column properties.
    pub fn type_array(self, value: Vec<String>) -> (r: Self)
        ensures
            r == (ColumnDef { type_: Some(OneOrMany::Many(value)), ..self }),
    {
        let mut s = self;
        s.type_ = Some(OneOrMany::Many(value));
        s
    }

    /// A function or expression that gets the value to be displayed from your
    /// data.
    pub fn value_getter(self, value: &str) -> (r: Self)
        ensures
            holds_str(r.value_getter, value@),
            r == (ColumnDef { value_getter: r.value_getter, ..self }),
    {
        let mut s = self;
        s.value_getter = Some(value.to_owned());
        s
    }

    /// A function or an expression to format a value. Not used for CSV export
    /// or copy to clipboard; only for UI cell rendering.
    pub fn value_formatter(self, value: &str) -> (r: Self)
        ensures
            holds_str(r.value_formatter, value@),
            r == (ColumnDef { value_formatter: r.value_formatter, ..self }),
    {
        let mut s = self;
        s.value_formatter = Some(value.to_owned());
        s
    }

    /// Provide a reference data map to be used to map column values to their
    /// respective value from the map.
    /// Set to `true` to display a disabled checkbox when row is not selectable
    /// and checkboxes are enabled.
    pub fn show_disabled_checkboxes(self, value: bool) -> (r: Self)
        ensures
            r == (ColumnDef { show_disabled_checkboxes: Some(value), ..self }),
    {
        let mut s = self;
        s.show_disabled_checkboxes = Some(value);
        s
    }

    /// Set to `true` for this column to be hidden.
    pub fn hidden(self, value: bool) -> (r: Self)
        ensures
            r == (ColumnDef { hidden: Some(value), ..self }),
    {
        let mut s = self;
        s.hidden = Some(value);
        s
    }

    /// Same as [`ColumnDef::hidden`], except only applied when creating a new
    /// column. Not applied when updating column definitions.
    pub fn initial_hide(self, value: bool) -> (r: Self)
        ensures
            r == (ColumnDef { initial_hide: Some(value), ..self }),
    {
        let mut s = self;
        s.initial_hide = Some(value);
        s
    }

    /// Set to `true` to block making column visible/hidden via the UI (API will
    /// still work).
    pub fn lock_visible(self, value: bool) -> (r: Self)
        ensures
            r == (ColumnDef { lock_visible: Some(value), ..self }),
    {
        let mut s = self;
        s.lock_visible = Some(value);
        s
    }

    /// Lock a column to position to `Left` or `Right` to always have this
    /// column displayed in that position. `True` is treated as `Left`.
    pub fn lock_position(self, value: LockPosition) -> (r: Self)
        ensures
            r == (ColumnDef { lock_position: Some(value), ..self }),
    {
        let mut s = self;
        s.lock_position = Some(value);
        s
    }

    /// Set to `true` if you do not want this column to be movable via dragging.
    pub fn suppress_movable(self, value: bool) -> (r: Self)
        ensures
            r == (ColumnDef { suppress_movable: Some(value), ..self }),
    {
        let mut s = self;
        s.suppress_movable = Some(value);
        s
    }

    /// Set to `true` if this column is editable.
    pub fn editable(self, value: bool) -> (r: Self)
        ensures
            r == (ColumnDef { editable: Some(value), ..self }),
    {
        let mut s = self;
        s.editable = Some(value);
        s
    }

    /// Set to `true` to have the cell editor appear in a popup.
    pub fn cell_editor_popup(self, value: bool) -> (r: Self)
        ensures
            r == (ColumnDef { cell_editor_popup: Some(value), ..self }),
    {
        let mut s = self;
        s.cell_editor_popup = Some(value);
        s
    }

    /// Set the position for the popup cell editor. Possible values are `Over`,
    /// whereby the popup will be positioned over the cell, or `Under`, whereby
    /// the popup will be positioned below the cell leaving the cell value
    /// visible.
    pub fn cell_editor_popup_position(self, value: PopupPosition) -> (r: Self)
        ensures
            r == (ColumnDef { cell_editor_popup_position: Some(value), ..self }),
    {
        let mut s = self;
        s.cell_editor_popup_position = Some(value);
        s
    }

    /// Set to `true` to have cells under this column enter edit mode after
    /// single click.
    pub fn single_click_edit(self, value: bool) -> (r: Self)
        ensures
            r == (ColumnDef { single_click_edit: Some(value), ..self }),
    {
        let mut s = self;
        s.single_click_edit = Some(value);
        s
    }

    /// Set whether the column is filterable, or use one of the provided
    /// filters.
    pub fn filter(self, value: Filter) -> (r: Self)
        ensures
            r == (ColumnDef { filter: Some(value), ..self }),
    {
        let mut s = self;
        s.filter = Some(value);
        s
    }

    /// Whether to display a floating filter for this column.
    pub fn floating_filter(self, value: bool) -> (r: Self)
        ensures
            r == (ColumnDef { floating_filter: Some(value), ..self }),
    {
        let mut s = self;
        s.floating_filter = Some(value);
        s
    }

    /// The name to render in the column header. If not specified and field is
    /// specified, the field name will be used as the header name.
    pub fn header_name(self, value: &str) -> (r: Self)
        ensures
            holds_str(r.header_name, value@),
            r == (ColumnDef { header_name: r.header_name, ..self }),
    {
        let mut s = self;
        s.header_name = Some(value.to_owned());
        s
    }

    /// Get the value for display in the header.
    pub fn header_value_getter(self, value: Callback) -> (r: Self)
        ensures
            r == (ColumnDef { header_value_getter: Some(value), ..self }),
    {
        let mut s = self;
        s.header_value_getter = Some(value);
        s
    }

    /// Tooltip for the column header.
    pub fn header_tooltip(self, value: &str) -> (r: Self)
        ensures
            holds_str(r.header_tooltip, value@),
            r == (ColumnDef { header_tooltip: r.header_tooltip, ..self }),
    {
        let mut s = self;
        s.header_tooltip = Some(value.to_owned());
        s
    }

    /// CSS class to use for the header cell. Can be a string or, if using the
    /// `header_class_array` method, a vector of strings.
    pub fn header_class(self, value: &str) -> (r: Self)
        ensures
            holds_one(r.header_class, value@),
            r == (ColumnDef { header_class: r.header_class, ..self }),
    {
        let mut s = self;
        s.header_class = Some(OneOrMany::One(value.to_owned()));
        s
    }

    /// CSS class to use for the header cell. Can be a string or, if using the
    /// `header_class_array` method, a vector of strings.
    pub fn header_class_array(self, value: Vec<String>) -> (r: Self)
        ensures
            r == (ColumnDef { header_class: Some(OneOrMany::Many(value)), ..self }),
    {
        let mut s = self;
        s.header_class = Some(OneOrMany::Many(value));
        s
    }

    /// Set to `true` to wrap long header names onto the next line.
    pub fn wrap_header_text(self, value: bool) -> (r: Self)
        ensures
            r == (ColumnDef { wrap_header_text: Some(value), ..self }),
    {
        let mut s = self;
        s.wrap_header_text = Some(value);
        s
    }

    /// Set to `true` to enable the header row to automatically adjust its
    /// height to accommodate the size of the header cell.
    pub fn auto_header_height(self, value: bool) -> (r: Self)
        ensures
            r == (ColumnDef { auto_header_height: Some(value), ..self }),
    {
        let mut s = self;
        s.auto_header_height = Some(value);
        s
    }

    /// Select which menu tabs are present, and in what order they are shown.
    pub fn menu_tabs(self, value: Vec<MenuTab>) -> (r: Self)
        ensures
            r == (ColumnDef { menu_tabs: Some(value), ..self }),
    {
        let mut s = self;
        s.menu_tabs = Some(value);
        s
    }

    /// Set to `true` to disable showing the menu for this column header.
    pub fn suppress_menu(self, value: bool) -> (r: Self)
        ensures
            r == (ColumnDef { suppress_menu: Some(value), ..self }),
    {
        let mut s = self;
        s.suppress_menu = Some(value);
        s
    }

    /// If `true`, a 'select all' checkbox will be put into the header.
    pub fn header_checkbox_selection(self, value: bool) -> (r: Self)
        ensures
            r == (ColumnDef { header_checkbox_selection: Some(value), ..self }),
    {
        let mut s = self;
        s.header_checkbox_selection = Some(value);
        s
    }

    /// If `true`, the header checkbox selection will only select filtered
    /// items.
    pub fn header_checkbox_selection_filtered_only(self, value: bool) -> (r: Self)
        ensures
            r == (ColumnDef { header_checkbox_selection_filtered_only: Some(value), ..self }),
    {
        let mut s = self;
        s.header_checkbox_selection_filtered_only = Some(value);
        s
    }

    /// Pin a column to one side: right or left. A value of `True` is converted
    /// to `Left`.
    pub fn pinned(self, value: PinnedPosition) -> (r: Self)
        ensures
            r == (ColumnDef { pinned: Some(value), ..self }),
    {
        let mut s = self;
        s.pinned = Some(value);
        s
    }

    /// Same as [`ColumnDef::pinned`], except only applied when creating a new
    /// column. Not applied when updating column definitions.
    pub fn initial_pinned(self, value: PinnedPosition) -> (r: Self)
        ensures
            r == (ColumnDef { initial_pinned: Some(value), ..self }),
    {
        let mut s = self;
        s.initial_pinned = Some(value);
        s
    }

    /// Set to `true` to block the user pinning the column, the column can only
    /// be pinned via definitions or API.
    pub fn lock_pinned(self, value: bool) -> (r: Self)
        ensures
            r == (ColumnDef { lock_pinned: Some(value), ..self }),
    {
        let mut s = self;
        s.lock_pinned = Some(value);
        s
    }

    /// Set to `true` to have the grid calculate the height of a row based on
    /// contents of this column.
    pub fn auto_height(self, value: bool) -> (r: Self)
        ensures
            r == (ColumnDef { auto_height: Some(value), ..self }),
    {
        let mut s = self;
        s.auto_height = Some(value);
        s
    }

    /// Set to `true` to have the text wrap inside the cell - typically used
    /// with [`ColumnDef::auto_height`].
    pub fn wrap_text(self, value: bool) -> (r: Self)
        ensures
            r == (ColumnDef { wrap_text: Some(value), ..self }),
    {
        let mut s = self;
        s.wrap_text = Some(value);
        s
    }

    /// Set to `true` to flash a cell when it's refreshed.
    pub fn enable_cell_change_flash(self, value: bool) -> (r: Self)
        ensures
            r == (ColumnDef { enable_cell_change_flash: Some(value), ..self }),
    {
        let mut s = self;
        s.enable_cell_change_flash = Some(value);
        s
    }

    /// Set to `true` to prevent this column from flashing on changes. Only
    /// applicable if cell flashing is turned on for the grid.
    pub fn suppress_cell_flash(self, value: bool) -> (r: Self)
        ensures
            r == (ColumnDef { suppress_cell_flash: Some(value), ..self }),
    {
        let mut s = self;
        s.suppress_cell_flash = Some(value);
        s
    }

    /// Set to `true` to allow row dragging.
    pub fn row_drag(self, value: bool) -> (r: Self)
        ensures
            r == (ColumnDef { row_drag: Some(value), ..self }),
    {
        let mut s = self;
        s.row_drag = Some(value);
        s
    }

    /// Set to `true` to allow dragging for native drag and drop.
    pub fn dnd_source(self, value: bool) -> (r: Self)
        ensures
            r == (ColumnDef { dnd_source: Some(value), ..self }),
    {
        let mut s = self;
        s.dnd_source = Some(value);
        s
    }

    /// Set wether the column is sortable.
    pub fn sortable(self, value: bool) -> (r: Self)
        ensures
            r == (ColumnDef { sortable: Some(value), ..self }),
    {
        let mut s = self;
        s.sortable = Some(value);
        s
    }

    /// Set the default sorting method.
    pub fn sort(self, value: SortMethod) -> (r: Self)
        ensures
            r == (ColumnDef { sort: Some(value), ..self }),
    {
        let mut s = self;
        s.sort = Some(value);
        s
    }

    /// The same as [`ColumnDef::sort`], except only applied when creating a new
    /// column. Not applied when updating column definitions.
    pub fn initial_sort(self, value: SortMethod) -> (r: Self)
        ensures
            r == (ColumnDef { initial_sort: Some(value), ..self }),
    {
        let mut s = self;
        s.initial_sort = Some(value);
        s
    }

    /// If sorting more than one column by default, specifies order in which the
    /// sorting should be applied.
    pub fn sort_index(self, value: Option<u32>) -> (r: Self)
        ensures
            r == (ColumnDef { sort_index: Some(value), ..self }),
    {
        let mut s = self;
        s.sort_index = Some(value);
        s
    }

    /// Vector defining the order in which sorting occurs (if sorting is
    /// enabled). Expects a vector of any permutation of the [`SortMethod`]
    /// variants.
    pub fn sorting_order(self, value: Vec<SortMethod>) -> (r: Self)
        ensures
            r == (ColumnDef { sorting_order: Some(value), ..self }),
    {
        let mut s = self;
        s.sorting_order = Some(value);
        s
    }

    /// Set to `true` if you want the unsorted icon to be shown when no sort is
    /// applied to this column.
    pub fn unsort_icon(self, value: bool) -> (r: Self)
        ensures
            r == (ColumnDef { unsort_icon: Some(value), ..self }),
    {
        let mut s = self;
        s.unsort_icon = Some(value);
        s
    }

    /// Set the span of the column.
    pub fn col_span(self, value: u32) -> (r: Self)
        ensures
            r == (ColumnDef { col_span: Some(value), ..self }),
    {
        let mut s = self;
        s.col_span = Some(value);
        s
    }

    /// Set the span of the row.
    pub fn row_span(self, value: u32) -> (r: Self)
        ensures
            r == (ColumnDef { row_span: Some(value), ..self }),
    {
        let mut s = self;
        s.row_span = Some(value);
        s
    }

    /// The field of the tooltip to apply to the cell.
    pub fn tooltip_field(self, value: &str) -> (r: Self)
        ensures
            holds_str(r.tooltip_field, value@),
            r == (ColumnDef { tooltip_field: r.tooltip_field, ..self }),
    {
        let mut s = self;
        s.tooltip_field = Some(value.to_owned());
        s
    }

    /// Initial width in pixels for the cell.
    pub fn width(self, value: u32) -> (r: Self)
        ensures
            r == (ColumnDef { width: Some(value), ..self }),
    {
        let mut s = self;
        s.width = Some(value);
        s
    }

    /// The same as [`ColumnDef::width`], except only applied when creating a
    /// new column. Not applied when updating column definitions.
    pub fn initial_width(self, value: u32) -> (r: Self)
        ensures
            r == (ColumnDef { initial_width: Some(value), ..self }),
    {
        let mut s = self;
        s.initial_width = Some(value);
        s
    }

    /// Minimum width in pixels for the cell.
    pub fn min_width(self, value: u32) -> (r: Self)
        ensures
            r == (ColumnDef { min_width: Some(value), ..self }),
    {
        let mut s = self;
        s.min_width = Some(value);
        s
    }

    /// Maxmum width in pixels for the cell.
    pub fn max_width(self, value: u32) -> (r: Self)
        ensures
            r == (ColumnDef { max_width: Some(value), ..self }),
    {
        let mut s = self;
        s.max_width = Some(value);
        s
    }

    /// Used instead of width when the goal is to fill the remaining empty space
    /// of the grid.
    pub fn flex(self, value: u32) -> (r: Self)
        ensures
            r == (ColumnDef { flex: Some(value), ..self }),
    {
        let mut s = self;
        s.flex = Some(value);
        s
    }

    /// The same as [`ColumnDef::flex`], except only applied when creating a new
    /// column. Not applied when updating column definitions.
    pub fn initial_flex(self, value: u32) -> (r: Self)
        ensures
            r == (ColumnDef { initial_flex: Some(value), ..self }),
    {
        let mut s = self;
        s.initial_flex = Some(value);
        s
    }

    /// Set to `true` to allow this column to be resized.
    pub fn resizable(self, value: bool) -> (r: Self)
        ensures
            r == (ColumnDef { resizable: Some(value), ..self }),
    {
        let mut s = self;
        s.resizable = Some(value);
        s
    }

    /// Set to `true` if you want this column's width to be fixed during 'size
    /// to fit' operations.
    pub fn suppress_size_to_fit(self, value: bool) -> (r: Self)
        ensures
            r == (ColumnDef { suppress_size_to_fit: Some(value), ..self }),
    {
        let mut s = self;
        s.suppress_size_to_fit = Some(value);
        s
    }

    /// Set to `true` if you do not want this column to be auto-resizable by
    /// double clicking it's edge.
    pub fn suppress_auto_size(self, value: bool) -> (r: Self)
        ensures
            r == (ColumnDef { suppress_auto_size: Some(value), ..self }),
    {
        let mut s = self;
        s.suppress_auto_size = Some(value);
        s
    }

}

/// Options with nothing set, as the constructor makes them, serialize to an
/// empty object.
pub proof fn law_new_column_serializes_empty(c: ColumnDef)
    requires
        c.is_unset(),
    ensures
        c.js_data() == JsData::Object(Seq::empty()),
{
    let f = c.field_slots();
    assert forall|i: int| 0 <= i < f.len() implies #[trigger] f[i].1 == SlotData::Optional(None) by {}
    law_all_absent(f, true);
}

impl ToJsValue for ColumnDef {
    open spec fn js_data(&self) -> JsData {
        JsData::Object(struct_entries(self.field_slots(), true))
    }

    #[verifier::rlimit(50)]
    fn to_js_value(&self) -> (r: JsValue) {
        let mut fields: Vec<FieldEntry> = Vec::new();
        fields.push(FieldEntry { key: "field".to_owned(), slot: optional(&self.field) });
        fields.push(FieldEntry { key: "colId".to_owned(), slot: optional(&self.col_id) });
        fields.push(FieldEntry { key: "type".to_owned(), slot: optional(&self.type_) });
        fields.push(FieldEntry { key: "valueGetter".to_owned(), slot: optional(&self.value_getter) });
        fields.push(FieldEntry { key: "valueFormatter".to_owned(), slot: optional(&self.value_formatter) });
        fields.push(FieldEntry { key: "showDisabledCheckboxes".to_owned(), slot: optional(&self.show_disabled_checkboxes) });
        fields.push(FieldEntry { key: "hide".to_owned(), slot: optional(&self.hidden) });
        fields.push(FieldEntry { key: "initialHide".to_owned(), slot: optional(&self.initial_hide) });
        fields.push(FieldEntry { key: "lockVisible".to_owned(), slot: optional(&self.lock_visible) });
        fields.push(FieldEntry { key: "lockPosition".to_owned(), slot: optional(&self.lock_position) });
        fields.push(FieldEntry { key: "suppressMovable".to_owned(), slot: optional(&self.suppress_movable) });
        fields.push(FieldEntry { key: "editable".to_owned(), slot: optional(&self.editable) });
        fields.push(FieldEntry { key: "cellEditorPopup".to_owned(), slot: optional(&self.cell_editor_popup) });
        fields.push(FieldEntry { key: "cellEditorPopupPosition".to_owned(), slot: optional(&self.cell_editor_popup_position) });
        fields.push(FieldEntry { key: "singleClickEdit".to_owned(), slot: optional(&self.single_click_edit) });
        fields.push(FieldEntry { key: "filter".to_owned(), slot: optional(&self.filter) });
        fields.push(FieldEntry { key: "floatingFilter".to_owned(), slot: optional(&self.floating_filter) });
        fields.push(FieldEntry { key: "headerName".to_owned(), slot: optional(&self.header_name) });
        fields.push(FieldEntry { key: "headerValueGetter".to_owned(), slot: optional(&self.header_value_getter) });
        fields.push(FieldEntry { key: "headerTooltip".to_owned(), slot: optional(&self.header_tooltip) });
        fields.push(FieldEntry { key: "headerClass".to_owned(), slot: optional(&self.header_class) });
        fields.push(FieldEntry { key: "wrapHeaderText".to_owned(), slot: optional(&self.wrap_header_text) });
        fields.push(FieldEntry { key: "autoHeaderHeight".to_owned(), slot: optional(&self.auto_header_height) });
        fields.push(FieldEntry { key: "menuTabs".to_owned(), slot: optional(&self.menu_tabs) });
        fields.push(FieldEntry { key: "suppressMenu".to_owned(), slot: optional(&self.suppress_menu) });
        fields.push(FieldEntry { key: "headerCheckboxSelection".to_owned(), slot: optional(&self.header_checkbox_selection) });
        fields.push(FieldEntry { key: "headerCheckboxSelectionFilteredOnly".to_owned(), slot: optional(&self.header_checkbox_selection_filtered_only) });
        fields.push(FieldEntry { key: "pinned".to_owned(), slot: optional(&self.pinned) });
        fields.push(FieldEntry { key: "initialPinned".to_owned(), slot: optional(&self.initial_pinned) });
        fields.push(FieldEntry { key: "lockPinned".to_owned(), slot: optional(&self.lock_pinned) });
        fields.push(FieldEntry { key: "autoHeight".to_owned(), slot: optional(&self.auto_height) });
        fields.push(FieldEntry { key: "wrapText".to_owned(), slot: optional(&self.wrap_text) });
        fields.push(FieldEntry { key: "enableCellChangeFlash".to_owned(), slot: optional(&self.enable_cell_change_flash) });
        fields.push(FieldEntry { key: "suppressCellFlash".to_owned(), slot: optional(&self.suppress_cell_flash) });
        fields.push(FieldEntry { key: "rowDrag".to_owned(), slot: optional(&self.row_drag) });
        fields.push(FieldEntry { key: "dndSource".to_owned(), slot: optional(&self.dnd_source) });
        fields.push(FieldEntry { key: "sortable".to_owned(), slot: optional(&self.sortable) });
        fields.push(FieldEntry { key: "sort".to_owned(), slot: optional(&self.sort) });
        fields.push(FieldEntry { key: "initialSort".to_owned(), slot: optional(&self.initial_sort) });
        fields.push(FieldEntry { key: "sortIndex".to_owned(), slot: optional(&self.sort_index) });
        fields.push(FieldEntry { key: "sortingOrder".to_owned(), slot: optional(&self.sorting_order) });
        fields.push(FieldEntry { key: "unSortIcon".to_owned(), slot: optional(&self.unsort_icon) });
        fields.push(FieldEntry { key: "colSpan".to_owned(), slot: optional(&self.col_span) });
        fields.push(FieldEntry { key: "rowSpan".to_owned(), slot: optional(&self.row_span) });
        fields.push(FieldEntry { key: "tooltipField".to_owned(), slot: optional(&self.tooltip_field) });
        fields.push(FieldEntry { key: "width".to_owned(), slot: optional(&self.width) });
        fields.push(FieldEntry { key: "initialWidth".to_owned(), slot: optional(&self.initial_width) });
        fields.push(FieldEntry { key: "minWidth".to_owned(), slot: optional(&self.min_width) });
        fields.push(FieldEntry { key: "maxWidth".to_owned(), slot: optional(&self.max_width) });
        fields.push(FieldEntry { key: "flex".to_owned(), slot: optional(&self.flex) });
        fields.push(FieldEntry { key: "initialFlex".to_owned(), slot: optional(&self.initial_flex) });
        fields.push(FieldEntry { key: "resizable".to_owned(), slot: optional(&self.resizable) });
        fields.push(FieldEntry { key: "suppressSizeToFit".to_owned(), slot: optional(&self.suppress_size_to_fit) });
        fields.push(FieldEntry { key: "suppressAutoSize".to_owned(), slot: optional(&self.suppress_auto_size) });
        assert(fields_view(fields@) =~= self.field_slots());
        serialize_struct(fields, true)
    }
}

/// Allowed values for [`ColumnDef::filter`][crate::ColumnDef::filter].
#[derive(Clone, Copy, PartialEq, Eq, Structural, Debug)]
pub enum Filter {
    /// A filter for number comparisons.
    AgNumberColumnFilter,
    /// A filter for string comparisons.
    AgTextColumnFilter,
    /// A filter for date comparisons.
    AgDateColumnFilter,
    /// A filter influenced by how filters work in Microsoft Excel. This is an
    /// AG Grid Enterprise feature.
    AgSetColumnFilter,
    /// Enable the default filter. The default is Text Filter for AG Grid
    /// Community and Set Filter for AG Grid Enterprise.
    True,
    /// Explicitly disable filtering.
    False,
}

impl ToJsValue for Filter {
    open spec fn js_data(&self) -> JsData {
        match self {
            Filter::AgNumberColumnFilter => JsData::Str("agNumberColumnFilter"@),
            Filter::AgTextColumnFilter => JsData::Str("agTextColumnFilter"@),
            Filter::AgDateColumnFilter => JsData::Str("agDateColumnFilter"@),
            Filter::AgSetColumnFilter => JsData::Str("agSetColumnFilter"@),
            Filter::True => JsData::Bool(true),
            Filter::False => JsData::Bool(false),
        }
    }

    fn to_js_value(&self) -> (r: JsValue) {
        match self {
            Filter::AgNumberColumnFilter => JsValue::Str("agNumberColumnFilter".to_owned()),
            Filter::AgTextColumnFilter => JsValue::Str("agTextColumnFilter".to_owned()),
            Filter::AgDateColumnFilter => JsValue::Str("agDateColumnFilter".to_owned()),
            Filter::AgSetColumnFilter => JsValue::Str("agSetColumnFilter".to_owned()),
            Filter::True => JsValue::Bool(true),
            Filter::False => JsValue::Bool(false),
        }
    }
}

/// Allowed values for
/// [`ColumnDef::lock_position`][crate::ColumnDef::lock_position].
#[derive(Clone, Copy, PartialEq, Eq, Structural, Debug)]
pub enum LockPosition {
    True,
    False,
    Left,
    Right,
}

impl ToJsValue for LockPosition {
    open spec fn js_data(&self) -> JsData {
        match self {
            LockPosition::True => JsData::Bool(true),
            LockPosition::False => JsData::Bool(false),
            LockPosition::Left => JsData::Str("left"@),
            LockPosition::Right => JsData::Str("right"@),
        }
    }

    fn to_js_value(&self) -> (r: JsValue) {
        match self {
            LockPosition::True => JsValue::Bool(true),
            LockPosition::False => JsValue::Bool(false),
            LockPosition::Left => JsValue::Str("left".to_owned()),
            LockPosition::Right => JsValue::Str("right".to_owned()),
        }
    }
}

/// Allowed values for
/// [`ColumnDef::pinned`][crate::ColumnDef::pinned] and
/// [`ColumnDef::initial_pinned`][crate::ColumnDef::initial_pinned].
#[derive(Clone, Copy, PartialEq, Eq, Structural, Debug)]
pub enum PinnedPosition {
    True,
    False,
    Left,
    Right,
}

impl ToJsValue for PinnedPosition {
    open spec fn js_data(&self) -> JsData {
        match self {
            PinnedPosition::True => JsData::Bool(true),
            PinnedPosition::False => JsData::Bool(false),
            PinnedPosition::Left => JsData::Str("left"@),
            PinnedPosition::Right => JsData::Str("right"@),
        }
    }

    fn to_js_value(&self) -> (r: JsValue) {
        match self {
            PinnedPosition::True => JsValue::Bool(true),
            PinnedPosition::False => JsValue::Bool(false),
            PinnedPosition::Left => JsValue::Str("left".to_owned()),
            PinnedPosition::Right => JsValue::Str("right".to_owned()),
        }
    }
}

/// Allowed values for
/// [`ColumnDef::cell_editor_popup_position`][crate::ColumnDef::cell_editor_popup_position].
#[derive(Clone, Copy, PartialEq, Eq, Structural, Debug)]
pub enum PopupPosition {
    Over,
    Under,
}

impl ToJsValue for PopupPosition {
    open spec fn js_data(&self) -> JsData {
        match self {
            PopupPosition::Over => JsData::Str("over"@),
            PopupPosition::Under => JsData::Str("under"@),
        }
    }

    fn to_js_value(&self) -> (r: JsValue) {
        match self {
            PopupPosition::Over => JsValue::Str("over".to_owned()),
            PopupPosition::Under => JsValue::Str("under".to_owned()),
        }
    }
}

/// Allowed values for
/// [`ColumnDef::menu_tabs`][crate::ColumnDef::menu_tabs].
#[derive(Clone, Copy, PartialEq, Eq, Structural, Debug)]
pub enum MenuTab {
    FilterMenuTab,
    GeneralMenuTab,
    ColumnsMenuTab,
}

impl ToJsValue for MenuTab {
    open spec fn js_data(&self) -> JsData {
        match self {
            MenuTab::FilterMenuTab => JsData::Str("filterMenuTab"@),
            MenuTab::GeneralMenuTab => JsData::Str("generalMenuTab"@),
            MenuTab::ColumnsMenuTab => JsData::Str("columnsMenuTab"@),
        }
    }

    fn to_js_value(&self) -> (r: JsValue) {
        match self {
            MenuTab::FilterMenuTab => JsValue::Str("filterMenuTab".to_owned()),
            MenuTab::GeneralMenuTab => JsValue::Str("generalMenuTab".to_owned()),
            MenuTab::ColumnsMenuTab => JsValue::Str("columnsMenuTab".to_owned()),
        }
    }
}

} // verus!
