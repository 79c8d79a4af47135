pub mod chars;
pub mod keys;
pub mod textinput;
pub mod alert;
pub mod elements;
pub mod listnav;
pub mod profiles;
pub mod platforms;
pub mod width;
pub mod minreg;
pub mod setup;
pub mod sortutil;
pub mod globmatch;
pub mod dslbrowser;
pub mod filepicker;
pub mod repomanager;
pub mod profileres;
pub mod markup;
pub mod macts;
pub mod mainview;
pub mod logview;
pub mod logpopup;
pub mod online;
pub mod infotree;
pub mod tree;
pub mod traitspopup;
pub mod tagpopup;
pub mod dialogs;
pub mod mouse;
pub mod minionsview;
pub mod console;
pub mod repokeys;
pub mod events;
pub mod systopkeys;
pub mod descpopup;
