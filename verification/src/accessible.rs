//! Accessibility metadata that widgets expose to assistive technology.

use crate::widget::Id;
use vstd::prelude::*;

verus! {

/// The role a widget plays in the accessibility tree.
///
/// Used by assistive technology to convey the purpose and interaction
/// model of a widget to the user. Defaults to [`Role::Group`].
#[non_exhaustive]
#[derive(Debug, Clone, Copy, PartialEq, Eq, Structural)]
pub enum Role {
    /// An alert message.
    Alert,
    /// A dialog conveying an alert.
    AlertDialog,
    /// A push button.
    Button,
    /// A canvas element for custom drawing.
    Canvas,
    /// A check box.
    CheckBox,
    /// A combo box / drop-down list.
    ComboBox,
    /// A dialog or modal window.
    Dialog,
    /// A document-like content area.
    Document,
    /// A generic container grouping related widgets.
    Group,
    /// A container with no special semantic role.
    GenericContainer,
    /// A heading element (used with levels 1--6).
    Heading,
    /// A raster or vector image.
    Image,
    /// A label for another widget.
    Label,
    /// A hyperlink.
    Link,
    /// A list container.
    List,
    /// An item within a list.
    ListItem,
    /// A menu container.
    Menu,
    /// A menu bar container.
    MenuBar,
    /// An item within a menu.
    MenuItem,
    /// A meter or gauge.
    Meter,
    /// A multiline text input field.
    MultilineTextInput,
    /// A navigation landmark.
    Navigation,
    /// A progress indicator.
    ProgressIndicator,
    /// A radio button.
    RadioButton,
    /// A container for a set of radio buttons.
    RadioGroup,
    /// A generic landmark region.
    Region,
    /// A scrollbar control.
    ScrollBar,
    /// A scrollable area.
    ScrollView,
    /// A search landmark.
    Search,
    /// A visual separator between sections.
    Separator,
    /// A slider control.
    Slider,
    /// Non-interactive text content.
    StaticText,
    /// A status message area.
    Status,
    /// A toggle switch.
    Switch,
    /// A single tab within a tab list.
    Tab,
    /// A container of tabs.
    TabList,
    /// A panel associated with a tab.
    TabPanel,
    /// A data table.
    Table,
    /// A row within a data table.
    Row,
    /// A cell within a table row.
    Cell,
    /// A column header cell within a table.
    ColumnHeader,
    /// A text input field.
    TextInput,
    /// A toolbar container.
    Toolbar,
    /// A tooltip popup.
    Tooltip,
    /// A tree view.
    Tree,
    /// An item within a tree view.
    TreeItem,
    /// A window or pane.
    Window,
}

impl Default for Role {
    /// The default role is [`Role::Group`].
    fn default() -> (role: Role)
        ensures
            role == Role::Group,
    {
        Role::Group
    }
}

/// The current value of a widget, exposed to assistive technology.
///
/// A numeric value is carried in the widget's own number type `N`;
/// whoever builds the platform tree converts it.
#[derive(Debug, Clone, PartialEq)]
pub enum Value<N> {
    /// A textual value (e.g. text input content).
    Text(String),
    /// A numeric value with its valid range.
    Numeric {
        /// The current value.
        current: N,
        /// The minimum value.
        min: N,
        /// The maximum value.
        max: N,
        /// The step increment, if any.
        step: Option<N>,
    },
}

/// How urgently assistive technology should announce changes to a
/// widget's content.
#[derive(Debug, Clone, Copy, PartialEq, Eq, Structural)]
pub enum Live {
    /// Changes are announced at the next graceful opportunity.
    Polite,
    /// Changes are announced immediately, interrupting the current
    /// speech.
    Assertive,
}

/// The orientation of a widget (e.g. a slider or toolbar).
#[derive(Debug, Clone, Copy, PartialEq, Eq, Structural)]
pub enum Orientation {
    /// Horizontal layout (default for most widgets).
    Horizontal,
    /// Vertical layout.
    Vertical,
}

/// The type of popup triggered by a widget.
#[derive(Debug, Clone, Copy, PartialEq, Eq, Structural)]
pub enum HasPopup {
    /// A listbox popup (used by combobox and pick list).
    Listbox,
    /// A menu popup (used by menu buttons).
    Menu,
    /// A dialog popup (used by modal triggers).
    Dialog,
    /// A tree popup (used by tree-view triggers).
    Tree,
    /// A grid popup (used by grid-view triggers).
    Grid,
}

/// Accessibility metadata for a single widget.
///
/// Widgets that take part in the accessibility tree hand one of these to
/// whoever builds that tree. All fields beyond [`role`](Self::role) are
/// optional; widgets should only populate the fields that apply.
#[derive(Debug, Clone)]
pub struct Accessible<N> {
    /// The semantic role of the widget.
    pub role: Role,
    /// A human-readable name for the widget (e.g. button label).
    pub label: Option<String>,
    /// A longer human-readable description (e.g. tooltip text).
    pub description: Option<String>,
    /// The current value, if the widget carries one.
    pub value: Option<Value<N>>,
    /// Whether the widget is disabled.
    pub disabled: bool,
    /// The toggle state, for widgets like check boxes and switches.
    pub toggled: Option<bool>,
    /// The selection state, for widgets like radio buttons and list
    /// items.
    pub selected: Option<bool>,
    /// Whether a collapsible section is expanded.
    pub expanded: Option<bool>,
    /// The live-region setting, for widgets whose content changes
    /// should be announced by assistive technology.
    pub live: Option<Live>,
    /// The heading level (1--6), for widgets with [`Role::Heading`].
    pub level: Option<usize>,
    /// Whether the widget is required (e.g. a required form field).
    pub required: bool,
    /// The widget's orientation, for sliders and toolbars.
    pub orientation: Option<Orientation>,
    /// Another widget that provides this widget's label.
    pub labelled_by: Option<Id>,
    /// Another widget that provides this widget's description.
    pub described_by: Option<Id>,
    /// Position of this item in a set (1-based). Used for list items,
    /// radio buttons, and tab panels.
    pub position_in_set: Option<usize>,
    /// Total number of items in the set containing this item.
    pub size_of_set: Option<usize>,
    /// The currently active child in a composite widget (e.g. the
    /// highlighted option in a combobox popup).
    pub active_descendant: Option<Id>,
    /// The type of popup this widget triggers when activated.
    pub has_popup: Option<HasPopup>,
    /// The IDs of all radio buttons in this radio group.
    pub radio_group: Option<Vec<Id>>,
    /// Whether the widget's value is invalid (form validation).
    pub invalid: bool,
    /// A widget that describes why the value is invalid.
    pub error_message: Option<Id>,
    /// Whether the widget is read-only (viewable but not editable).
    pub read_only: bool,
    /// Whether the widget is busy (loading or processing).
    pub busy: bool,
    /// Whether the widget is hidden from assistive technology.
    pub hidden: bool,
    /// Whether this dialog is modal.
    pub modal: bool,
    /// The keyboard mnemonic for this widget (Alt+letter).
    pub mnemonic: Option<char>,
}

/// The metadata of a widget with the given role and nothing else: no
/// text, no value, no relation, every flag off.
pub open spec fn blank<N>(role: Role) -> Accessible<N> {
    Accessible {
        role,
        label: None,
        description: None,
        value: None,
        disabled: false,
        toggled: None,
        selected: None,
        expanded: None,
        live: None,
        level: None,
        required: false,
        orientation: None,
        labelled_by: None,
        described_by: None,
        position_in_set: None,
        size_of_set: None,
        active_descendant: None,
        has_popup: None,
        radio_group: None,
        invalid: false,
        error_message: None,
        read_only: false,
        busy: false,
        hidden: false,
        modal: false,
        mnemonic: None,
    }
}

impl<N> Default for Accessible<N> {
    /// A [`Role::Group`] with every other field at its default.
    fn default() -> (a: Accessible<N>)
        ensures
            a == blank::<N>(Role::Group),
    {
        Accessible {
            role: Role::default(),
            label: None,
            description: None,
            value: None,
            disabled: false,
            toggled: None,
            selected: None,
            expanded: None,
            live: None,
            level: None,
            required: false,
            orientation: None,
            labelled_by: None,
            described_by: None,
            position_in_set: None,
            size_of_set: None,
            active_descendant: None,
            has_popup: None,
            radio_group: None,
            invalid: false,
            error_message: None,
            read_only: false,
            busy: false,
            hidden: false,
            modal: false,
            mnemonic: None,
        }
    }
}

} // verus!
