[package]
name = "dss_applet"
version = "0.1.0"
edition = "2021"
publish = false

[dependencies]
appindicator3 = "*"
glib = "0.15"
gtk = "0.15"
open = "*"
