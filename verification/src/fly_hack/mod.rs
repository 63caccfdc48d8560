pub mod fly_logic;
pub mod keybinds;
