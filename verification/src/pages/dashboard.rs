//! The dashboard of the operator console: a column of tabs and the selected
//! layer.
use super::{Command, CommandView, PageAction, PageActionView, PageView};
use vstd::prelude::*;

verus! {

/// The layers of the dashboard.
#[derive(Clone, Copy, Debug, PartialEq, Eq, Structural)]
pub enum Layer {
    Inicio,
    Radio,
    Reles,
    Tareas,
}

#[derive(Clone, Copy, Debug, PartialEq, Eq)]
struct RadioState {
    channel: u8,
    rx: u32,
    tx: u32,
    total_tx: u32,
    total_rx: u32,
}

#[derive(Clone, Copy, Debug, PartialEq, Eq)]
struct DashboardState {
    radio: RadioState,
}

/// The dashboard; its view is the selected layer.
pub struct DashboardPage {
    state: DashboardState,
    layer: Layer,
}

/// What the user tells the dashboard.
#[derive(Clone, Copy, Debug, PartialEq, Eq)]
pub enum Message {
    ChangeLayer(Layer),
}

impl Message {
    /// This message as a message of the console.
    pub fn wrap(self) -> (m: crate::console::Message)
        ensures
            m == crate::console::Message::Page(super::Message::Dashboard(self)),
    {
        crate::console::Message::Page(super::Message::Dashboard(self))
    }
}

impl View for DashboardPage {
    type V = Layer;

    closed spec fn view(&self) -> Layer {
        self.layer
    }
}

/// A new dashboard shows its first layer.
pub open spec fn spec_dashboard_new() -> Layer {
    Layer::Inicio
}

/// The dashboard after a message, and what the console must do.
pub open spec fn spec_dashboard_update(l: Layer, m: Message) -> (Layer, PageActionView) {
    match m {
        Message::ChangeLayer(n) => (n, PageActionView::Command(CommandView::Nothing)),
    }
}

/// The label of a layer.
pub open spec fn spec_layer_name(l: Layer) -> Seq<char> {
    match l {
        Layer::Inicio => seq!['I', 'n', 'i', 'c', 'i', 'o'],
        Layer::Radio => seq!['R', 'a', 'd', 'i', 'o'],
        Layer::Reles => seq!['R', 'e', 'l', 'e', 's'],
        Layer::Tareas => seq!['T', 'a', 'r', 'e', 'a', 's'],
    }
}

/// Changing the layer selects the layer asked for, whichever was selected,
/// and asks nothing of the console.
pub proof fn lemma_change_layer_selects(l: Layer, n: Layer)
    ensures
        spec_dashboard_update(l, Message::ChangeLayer(n)).0 == n,
        spec_dashboard_update(l, Message::ChangeLayer(n)).1 == PageActionView::Command(
            CommandView::Nothing,
        ),
{
}

/// Each tab is labelled with its layer's name: `Inicio`, `Radio`, `Reles`
/// and `Tareas`, all different.
pub proof fn lemma_layer_names(l: Layer, m: Layer)
    ensures
        l is Inicio ==> spec_layer_name(l) == seq!['I', 'n', 'i', 'c', 'i', 'o'],
        l is Radio ==> spec_layer_name(l) == seq!['R', 'a', 'd', 'i', 'o'],
        l is Reles ==> spec_layer_name(l) == seq!['R', 'e', 'l', 'e', 's'],
        l is Tareas ==> spec_layer_name(l) == seq!['T', 'a', 'r', 'e', 'a', 's'],
        l != m ==> spec_layer_name(l) != spec_layer_name(m),
{
    if l != m {
        if spec_layer_name(l).len() == spec_layer_name(m).len() {
            assert(spec_layer_name(l)[0] != spec_layer_name(m)[0] || spec_layer_name(l)[1]
                != spec_layer_name(m)[1]);
        }
    }
}

impl Layer {
    /// Every layer, in the order of the tabs.
    pub fn all() -> (r: Vec<Layer>)
        ensures
            r@ == seq![Layer::Inicio, Layer::Radio, Layer::Reles, Layer::Tareas],
    {
        let mut r: Vec<Layer> = Vec::new();
        r.push(Layer::Inicio);
        r.push(Layer::Radio);
        r.push(Layer::Reles);
        r.push(Layer::Tareas);
        assert(r@ =~= seq![Layer::Inicio, Layer::Radio, Layer::Reles, Layer::Tareas]);
        r
    }

    /// The label of the layer's tab: the layer's name.
    pub fn name(&self) -> (r: &'static str)
        ensures
            r@ == spec_layer_name(*self),
    {
        match self {
            Layer::Inicio => {
                proof {
                    reveal_strlit("Inicio");
                }
                assert("Inicio"@ =~= spec_layer_name(*self));
                "Inicio"
            },
            Layer::Radio => {
                proof {
                    reveal_strlit("Radio");
                }
                assert("Radio"@ =~= spec_layer_name(*self));
                "Radio"
            },
            Layer::Reles => {
                proof {
                    reveal_strlit("Reles");
                }
                assert("Reles"@ =~= spec_layer_name(*self));
                "Reles"
            },
            Layer::Tareas => {
                proof {
                    reveal_strlit("Tareas");
                }
                assert("Tareas"@ =~= spec_layer_name(*self));
                "Tareas"
            },
        }
    }
}

/// A tab of the dashboard: its label, whether it is highlighted, and the
/// message that pressing it sends (none for the selected layer).
pub struct Tab {
    pub label: &'static str,
    pub primary: bool,
    pub on_press: Option<Message>,
}

/// The tab of `layer` when `active` is selected.
pub fn tab(layer: Layer, active: Layer) -> (t: Tab)
    ensures
        t.label@ == spec_layer_name(layer),
        t.primary == (layer == active),
        t.on_press == (if layer == active {
            None
        } else {
            Some(Message::ChangeLayer(layer))
        }),
{
    let is_active = layer == active;
    Tab {
        label: layer.name(),
        primary: is_active,
        on_press: if is_active {
            None
        } else {
            Some(Message::ChangeLayer(layer))
        },
    }
}

impl DashboardPage {
    /// The radio statistics that the dashboard holds: channel, received and
    /// sent packets, and the totals of sent and received packets.
    pub closed spec fn radio_stats(&self) -> (u8, u32, u32, u32, u32) {
        let r = self.state.radio;
        (r.channel, r.rx, r.tx, r.total_tx, r.total_rx)
    }

    /// A dashboard on its first layer, with no radio statistics yet.
    pub fn new() -> (d: DashboardPage)
        ensures
            d@ == spec_dashboard_new(),
            d.radio_stats() == (0u8, 0u32, 0u32, 0u32, 0u32),
    {
        DashboardPage {
            state: DashboardState {
                radio: RadioState { channel: 0, rx: 0, tx: 0, total_tx: 0, total_rx: 0 },
            },
            layer: Layer::Inicio,
        }
    }

    /// The selected layer.
    pub fn layer(&self) -> (l: Layer)
        ensures
            l == self@,
    {
        self.layer
    }

    /// The text of the panel beside the tabs: only the radio layer has one.
    pub fn panel_text(&self) -> (r: &'static str)
        ensures
            r@ == (if self@ == Layer::Radio {
                seq!['R', 'a', 'd', 'i', 'o']
            } else {
                seq!['T', 'O', 'D', 'O']
            }),
    {
        match self.layer {
            Layer::Radio => {
                proof {
                    reveal_strlit("Radio");
                }
                assert("Radio"@ =~= seq!['R', 'a', 'd', 'i', 'o']);
                "Radio"
            },
            _ => {
                proof {
                    reveal_strlit("TODO");
                }
                assert("TODO"@ =~= seq!['T', 'O', 'D', 'O']);
                "TODO"
            },
        }
    }

    /// Handles a message.
    pub fn update(&mut self, message: Message) -> (a: PageAction)
        ensures
            (final(self)@, a@) == spec_dashboard_update(old(self)@, message),
            message matches Message::ChangeLayer(n) ==> final(self)@ == n,
            final(self).radio_stats() == old(self).radio_stats(),
    {
        match message {
            Message::ChangeLayer(layer) => self.layer = layer,
        }
        PageAction::Command(Command::Nothing)
    }
}

} // verus!
