[package]
name = "music_player"
version = "0.1.0"
edition = "2021"
publish = false

[dependencies]
crossbeam = "0.3"
gdk-pixbuf = "0.15"
gio = "0.15"
gtk = "0.15"
gtk-sys = "0.15"
id3 = "1"
pulse-simple = "1"
simplemad = "0.9"
