use vstd::prelude::*;

pub mod kline;
pub mod scale;
pub mod study;
pub mod timeandsales;

verus! {

/// Which axis scale was clicked.
#[derive(Debug, Clone, Copy, PartialEq, Eq, Structural)]
pub enum AxisScaleClicked {
    X,
    Y,
}

/// How a chart keeps its prices in view on its own.
#[derive(Debug, Clone, Copy, PartialEq, Eq, Structural)]
pub enum Autoscale {
    /// Keeps the latest price centred.
    CenterLatest,
    /// Fits the visible prices into the chart.
    FitToVisible,
}

/// The autoscale mode after the toggle: off, then centring on the latest
/// price, then fitting the visible prices where the chart supports it, then
/// off again.
pub open spec fn spec_toggled_autoscale(current: Option<Autoscale>, supports_fit: bool) -> Option<
    Autoscale,
> {
    match current {
        None => Some(Autoscale::CenterLatest),
        Some(Autoscale::CenterLatest) => if supports_fit {
            Some(Autoscale::FitToVisible)
        } else {
            None
        },
        Some(Autoscale::FitToVisible) => None,
    }
}

/// Cycles the autoscale mode when its button is pressed.
pub fn toggle_autoscale(current: Option<Autoscale>, supports_fit: bool) -> (r: Option<Autoscale>)
    ensures
        r == spec_toggled_autoscale(current, supports_fit),
{
    match current {
        None => Some(Autoscale::CenterLatest),
        Some(Autoscale::CenterLatest) => if supports_fit {
            Some(Autoscale::FitToVisible)
        } else {
            None
        },
        Some(Autoscale::FitToVisible) => None,
    }
}

/// The autoscale mode a double click on the price axis sets: fitting the
/// visible prices where the chart supports it, else centring on the latest.
pub fn autoscale_on_price_axis_reset(supports_fit: bool) -> (r: Autoscale)
    ensures
        r == (if supports_fit {
            Autoscale::FitToVisible
        } else {
            Autoscale::CenterLatest
        }),
{
    if supports_fit {
        Autoscale::FitToVisible
    } else {
        Autoscale::CenterLatest
    }
}

/// Toggling returns to where it started after three presses on a chart
/// that can fit the visible prices and after two on one that cannot, and
/// never offers fitting to a chart that cannot.
pub proof fn law_autoscale_toggle_cycles(current: Option<Autoscale>, supports_fit: bool)
    ensures
        supports_fit ==> spec_toggled_autoscale(
            spec_toggled_autoscale(spec_toggled_autoscale(current, true), true),
            true,
        ) == current,
        !supports_fit && current != Some(Autoscale::FitToVisible) ==> spec_toggled_autoscale(
            spec_toggled_autoscale(current, false),
            false,
        ) == current,
        !supports_fit ==> spec_toggled_autoscale(current, false) != Some(
            Autoscale::FitToVisible,
        ),
{
}

} // verus!
