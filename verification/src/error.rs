//! The errors that the bot's own logic reports.
use vstd::prelude::*;
use vstd::string::*;

verus! {

/// An error of the bot, by the part of the flow that raised it.
#[derive(Debug)]
pub enum AppError {
    Config(String),
    Browser(String),
    Monitor(String),
    Checkout(String),
    Notification(String),
    Speed(String),
}

/// The mathematical value of an [`AppError`]: its kind and its text.
pub enum ErrorView {
    Config(Seq<char>),
    Browser(Seq<char>),
    Monitor(Seq<char>),
    Checkout(Seq<char>),
    Notification(Seq<char>),
    Speed(Seq<char>),
}

impl View for AppError {
    type V = ErrorView;

    open spec fn view(&self) -> ErrorView {
        match self {
            AppError::Config(m) => ErrorView::Config(m@),
            AppError::Browser(m) => ErrorView::Browser(m@),
            AppError::Monitor(m) => ErrorView::Monitor(m@),
            AppError::Checkout(m) => ErrorView::Checkout(m@),
            AppError::Notification(m) => ErrorView::Notification(m@),
            AppError::Speed(m) => ErrorView::Speed(m@),
        }
    }
}

/// The text that an error reads as when shown to the user.
pub open spec fn error_message(e: ErrorView) -> Seq<char> {
    match e {
        ErrorView::Config(m) => "Config error: "@ + m,
        ErrorView::Browser(m) => "Browser error: "@ + m,
        ErrorView::Monitor(m) => "Monitor error: "@ + m,
        ErrorView::Checkout(m) => "Checkout error: "@ + m,
        ErrorView::Notification(m) => "Notification error: "@ + m,
        ErrorView::Speed(m) => "Speed benchmark error: "@ + m,
    }
}

/// The value of a unit result, with the error taken by its view.
pub open spec fn unit_result_view(r: Result<(), AppError>) -> Result<(), ErrorView> {
    match r {
        Ok(()) => Ok(()),
        Err(e) => Err(e@),
    }
}

impl AppError {
    /// The text that this error reads as, kind first.
    pub fn message(&self) -> (r: String)
        ensures
            r@ == error_message(self@),
    {
        let (prefix, m) = match self {
            AppError::Config(m) => ("Config error: ", m),
            AppError::Browser(m) => ("Browser error: ", m),
            AppError::Monitor(m) => ("Monitor error: ", m),
            AppError::Checkout(m) => ("Checkout error: ", m),
            AppError::Notification(m) => ("Notification error: ", m),
            AppError::Speed(m) => ("Speed benchmark error: ", m),
        };
        let mut r = String::from_str(prefix);
        r.append(m.as_str());
        r
    }
}

} // verus!
