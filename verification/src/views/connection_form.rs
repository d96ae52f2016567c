//! A form that holds a broker URL and the error of the last attempt.
use vstd::prelude::*;

verus! {

pub struct ConnectionForm {
    url: String,
    error: Option<String>,
}

impl View for ConnectionForm {
    /// The URL and the error message.
    type V = (Seq<char>, Option<Seq<char>>);

    closed spec fn view(&self) -> (Seq<char>, Option<Seq<char>>) {
        (
            self.url@,
            match self.error {
                Some(e) => Some(e@),
                None => None,
            },
        )
    }
}

impl ConnectionForm {
    /// A form holding `url` and no error.
    pub fn new(url: String) -> (f: ConnectionForm)
        ensures
            f@ == (url@, None::<Seq<char>>),
    {
        ConnectionForm { url, error: None }
    }

    pub fn set_url(&mut self, url: String)
        ensures
            final(self)@ == (url@, old(self)@.1),
    {
        self.url = url;
    }

    pub fn url(&self) -> (r: &str)
        ensures
            r@ == self@.0,
    {
        self.url.as_str()
    }

    pub fn set_error(&mut self, error: Option<String>)
        ensures
            final(self)@ == (
                old(self)@.0,
                match error {
                    Some(e) => Some(e@),
                    None => None,
                },
            ),
    {
        self.error = error;
    }

    pub fn error(&self) -> (r: Option<&str>)
        ensures
            r matches Some(e) ==> self@.1 == Some(e@),
            r is None ==> self@.1 is None,
    {
        match &self.error {
            Some(e) => Some(e.as_str()),
            None => None,
        }
    }
}

} // verus!
