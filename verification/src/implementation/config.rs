//! The classic view of the local user's configuration.
use crate::types::UserId;
use vstd::prelude::*;

verus! {

/// The property signals of the configuration.
#[derive(Clone, Copy, Debug, PartialEq, Eq)]
pub enum ConfigSignal {
    NameChanged,
    DisplayNameChanged,
    ProfilePictureChanged,
    ColorChanged,
    ColorschemeChanged,
}

/// The local user's configuration.
pub struct Config {
    pub signals: Vec<ConfigSignal>,
    pub id: UserId,
    pub name: Option<String>,
    pub profile_picture: Option<String>,
    pub color: u32,
    pub colorscheme: u32,
}

impl Config {
    /// The local user's id.
    pub fn config_id(&self) -> (id: &str)
        ensures
            id@ == self.id@,
    {
        self.id.as_str()
    }

    /// The local user's name.
    pub fn name(&self) -> (n: Option<&str>)
        ensures
            crate::types::shows_text(n, self.name),
    {
        match &self.name {
            Some(n) => Some(n.as_str()),
            None => None,
        }
    }

    /// Sets the name once storage did (`stored`), telling the view; the view
    /// hears that the displayed name may have changed either way.
    pub fn set_name(&mut self, name: Option<String>, stored: bool)
        ensures
            final(self).id == old(self).id,
            final(self).profile_picture == old(self).profile_picture,
            final(self).name == if stored { name } else { old(self).name },
            stored ==> final(self).signals@ == old(self).signals@.push(ConfigSignal::NameChanged).push(
                ConfigSignal::DisplayNameChanged,
            ),
            !stored ==> final(self).signals@ == old(self).signals@.push(ConfigSignal::DisplayNameChanged),
    {
        if stored {
            self.name = name;
            self.signals.push(ConfigSignal::NameChanged);
        }
        self.signals.push(ConfigSignal::DisplayNameChanged);
    }

    /// The name to show: the name when there is one, else the id.
    pub fn display_name(&self) -> (d: &str)
        ensures
            d@ == match self.name {
                Some(n) => n@,
                None => self.id@,
            },
    {
        match &self.name {
            Some(n) => n.as_str(),
            None => self.id.as_str(),
        }
    }

    /// The profile picture.
    pub fn profile_picture(&self) -> (p: Option<&str>)
        ensures
            crate::types::shows_text(p, self.profile_picture),
    {
        match &self.profile_picture {
            Some(p) => Some(p.as_str()),
            None => None,
        }
    }

    /// Sets the profile picture once storage did (`stored`), telling the view.
    pub fn set_profile_picture(&mut self, picture: Option<String>, stored: bool)
        ensures
            final(self).name == old(self).name,
            !stored ==> *final(self) == *old(self),
            stored ==> final(self).profile_picture == picture && final(self).signals@ == old(self).signals@.push(ConfigSignal::ProfilePictureChanged),
    {
        if stored {
            self.profile_picture = picture;
            self.signals.push(ConfigSignal::ProfilePictureChanged);
        }
    }

    /// The color.
    pub fn color(&self) -> (c: u32)
        ensures
            c == self.color,
    {
        self.color
    }

    /// Sets the color once storage did (`stored`), telling the view.
    pub fn set_color(&mut self, color: u32, stored: bool)
        ensures
            !stored ==> *final(self) == *old(self),
            stored ==> final(self).color == color && final(self).signals@ == old(self).signals@.push(
                ConfigSignal::ColorChanged,
            ) && final(self).colorscheme == old(self).colorscheme,
    {
        if stored {
            self.color = color;
            self.signals.push(ConfigSignal::ColorChanged);
        }
    }

    /// The color scheme.
    pub fn colorscheme(&self) -> (c: u32)
        ensures
            c == self.colorscheme,
    {
        self.colorscheme
    }

    /// Sets the color scheme once storage did (`stored`), telling the view.
    pub fn set_colorscheme(&mut self, colorscheme: u32, stored: bool)
        ensures
            !stored ==> *final(self) == *old(self),
            stored ==> final(self).colorscheme == colorscheme && final(self).signals@ == old(self).signals@.push(ConfigSignal::ColorschemeChanged) && final(self).color == old(self).color,
    {
        if stored {
            self.colorscheme = colorscheme;
            self.signals.push(ConfigSignal::ColorschemeChanged);
        }
    }
}

} // verus!
